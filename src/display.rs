//! The record of one connected display, as the query report describes it.

use vstd::prelude::*;

verus! {

/// Refresh rate assumed when the report gives none that can be read, in millihertz.
pub const DEFAULT_REFRESH_MILLIHERTZ: u32 = 60_000;

/// One connected display and its currently active mode.
#[derive(Debug, Clone)]
pub struct DisplayInfo {
    /// The output's identifier in the tool's report (e.g. `HDMI-1`).
    pub name: String,
    pub width: u32,
    pub height: u32,
    /// Refresh rate in thousandths of a hertz.
    pub refresh_millihertz: u32,
    pub is_primary: bool,
}

/// What a `DisplayInfo` holds, with the name as characters.
pub ghost struct DisplayView {
    pub name: Seq<char>,
    pub width: u32,
    pub height: u32,
    pub refresh_millihertz: u32,
    pub is_primary: bool,
}

impl View for DisplayInfo {
    type V = DisplayView;

    open spec fn view(&self) -> DisplayView {
        DisplayView {
            name: self.name@,
            width: self.width,
            height: self.height,
            refresh_millihertz: self.refresh_millihertz,
            is_primary: self.is_primary,
        }
    }
}

impl DisplayInfo {
    /// The active mode has a positive size, as every parsed record does.
    pub open spec fn wf(&self) -> bool {
        self.width > 0 && self.height > 0
    }

    /// A copy of the record, field for field.
    pub fn duplicate(&self) -> (r: DisplayInfo)
        ensures
            r@ == self@,
    {
        DisplayInfo {
            name: self.name.clone(),
            width: self.width,
            height: self.height,
            refresh_millihertz: self.refresh_millihertz,
            is_primary: self.is_primary,
        }
    }
}

} // verus!

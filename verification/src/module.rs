//! The settings of the battery widget.

use vstd::prelude::*;
use crate::display::{label_text, render_label};
use crate::properties::UpowerProperties;

verus! {

/// The settings of the battery widget.
#[derive(Debug)]
pub struct UpowerModule {
    /// The format of the label, with the tokens `{percentage}`,
    /// `{time_remaining}` and `{state}`.
    pub format: String,
    /// The size of the icon, in pixels.
    pub icon_size: i32,
}

/// The format of the label where none is set: the charge level and a
/// percent sign.
pub fn default_format() -> (format: String)
    ensures
        format@ == "{percentage}%"@,
{
    "{percentage}%".to_owned()
}

/// The size of the icon where none is set.
pub fn default_icon_size() -> (size: i32)
    ensures
        size == 24,
{
    24
}

impl Clone for UpowerModule {
    fn clone(&self) -> (copy: Self)
        ensures
            copy.format@ == self.format@,
            copy.icon_size == self.icon_size,
    {
        UpowerModule { format: self.format.clone(), icon_size: self.icon_size }
    }
}

impl Default for UpowerModule {
    fn default() -> (module: Self)
        ensures
            module.format@ == "{percentage}%"@,
            module.icon_size == 24,
    {
        UpowerModule { format: default_format(), icon_size: default_icon_size() }
    }
}

impl UpowerModule {
    /// The label for a battery, from this module's format and the text of
    /// the charge level.
    pub fn label(&self, percentage: &str, properties: &UpowerProperties) -> (text: String)
        ensures
            text@ == label_text(self.format@, percentage@, properties@),
    {
        render_label(self.format.as_str(), percentage, properties)
    }
}

} // verus!

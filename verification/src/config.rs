use vstd::prelude::*;

verus! {

/// Placement of a demon on the list: the main list, the extended list behind it, or
/// the legacy list behind both.
#[derive(Clone, Copy, Debug, PartialEq, Eq, Structural)]
pub enum ListSection {
    Main,
    Extended,
    Legacy,
}

/// Where the main list and the extended list end.
#[derive(Clone, Copy, Debug, PartialEq, Eq, Structural)]
pub struct ListLimits {
    /// Last position of the main list.
    pub list_size: i16,
    /// Last position of the extended list.
    pub extended_list_size: i16,
}

impl ListLimits {
    /// The section in which a demon at `position` stands.
    pub open spec fn spec_section(self, position: i16) -> ListSection {
        if position > self.extended_list_size {
            ListSection::Legacy
        } else if position > self.list_size {
            ListSection::Extended
        } else {
            ListSection::Main
        }
    }

    #[verifier::when_used_as_spec(spec_section)]
    pub fn section(self, position: i16) -> (section: ListSection)
        ensures
            section == self.spec_section(position),
    {
        if position > self.extended_list_size {
            ListSection::Legacy
        } else if position > self.list_size {
            ListSection::Extended
        } else {
            ListSection::Main
        }
    }
}

} // verus!

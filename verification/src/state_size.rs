//! Limits that keep a campaign's stored state bounded.
//!
//! Text fields are handled as their UTF-8 bytes, so every length limit is a
//! byte count.
use vstd::prelude::*;

verus! {

pub const MAX_STRING_LEN: u32 = 256;
pub const MAX_CONTRIBUTORS: u32 = 1_000;
pub const MAX_MILESTONES: u32 = 20;
pub const MAX_ROADMAP_ITEMS: u32 = 20;
pub const MAX_STRETCH_GOALS: u32 = 10;

/// A single text field fits in storage.
pub open spec fn text_fits(s: Seq<u8>) -> bool {
    s.len() <= MAX_STRING_LEN
}

/// Accepts a campaign title of at most `MAX_STRING_LEN` bytes.
pub fn validate_title(s: &[u8]) -> (r: bool)
    ensures
        r == text_fits(s@),
{
    s.len() <= MAX_STRING_LEN as usize
}

/// Accepts a campaign description of at most `MAX_STRING_LEN` bytes.
pub fn validate_description(s: &[u8]) -> (r: bool)
    ensures
        r == text_fits(s@),
{
    s.len() <= MAX_STRING_LEN as usize
}

/// Accepts social links of at most `MAX_STRING_LEN` bytes.
pub fn validate_social_links(s: &[u8]) -> (r: bool)
    ensures
        r == text_fits(s@),
{
    s.len() <= MAX_STRING_LEN as usize
}

/// Accepts a roadmap item description of at most `MAX_STRING_LEN` bytes.
pub fn validate_roadmap_description(s: &[u8]) -> (r: bool)
    ensures
        r == text_fits(s@),
{
    s.len() <= MAX_STRING_LEN as usize
}

/// Accepts a bonus goal description of at most `MAX_STRING_LEN` bytes.
pub fn validate_bonus_goal_description(s: &[u8]) -> (r: bool)
    ensures
        r == text_fits(s@),
{
    s.len() <= MAX_STRING_LEN as usize
}

/// Accepts a combined metadata length of at most five text fields.
pub fn validate_metadata_total_length(len: u32) -> (r: bool)
    ensures
        r == (len <= MAX_STRING_LEN * 5),
{
    len <= MAX_STRING_LEN * 5
}

/// True while another contributor may still be recorded.
pub fn validate_contributor_capacity(len: u32) -> (r: bool)
    ensures
        r == (len < MAX_CONTRIBUTORS),
{
    len < MAX_CONTRIBUTORS
}

/// True while another pledger may still be recorded.
pub fn validate_pledger_capacity(len: u32) -> (r: bool)
    ensures
        r == (len < MAX_CONTRIBUTORS),
{
    len < MAX_CONTRIBUTORS
}

/// True while another roadmap item may still be added.
pub fn validate_roadmap_capacity(len: u32) -> (r: bool)
    ensures
        r == (len < MAX_ROADMAP_ITEMS),
{
    len < MAX_ROADMAP_ITEMS
}

/// True while another stretch goal may still be added.
pub fn validate_stretch_goal_capacity(len: u32) -> (r: bool)
    ensures
        r == (len < MAX_STRETCH_GOALS),
{
    len < MAX_STRETCH_GOALS
}

/// True for a milestone count below `MAX_MILESTONES`.
pub fn validate_milestone_capacity(len: u32) -> (r: bool)
    ensures
        r == (len < MAX_MILESTONES),
{
    len < MAX_MILESTONES
}

/// A milestone description is non-empty and fits in storage.
pub open spec fn milestone_description_ok(s: Seq<u8>) -> bool {
    s.len() > 0 && text_fits(s)
}

/// Accepts a non-empty milestone description of at most `MAX_STRING_LEN` bytes.
pub fn validate_milestone_description(s: &[u8]) -> (r: bool)
    ensures
        r == milestone_description_ok(s@),
{
    s.len() > 0 && s.len() <= MAX_STRING_LEN as usize
}

} // verus!

use stellar_raise::state_size::{
    validate_bonus_goal_description, validate_contributor_capacity, validate_description,
    validate_metadata_total_length, validate_milestone_capacity, validate_milestone_description,
    validate_pledger_capacity, validate_roadmap_capacity, validate_roadmap_description,
    validate_social_links, validate_stretch_goal_capacity, validate_title, MAX_CONTRIBUTORS,
    MAX_MILESTONES, MAX_STRING_LEN,
};

/// The UTF-8 bytes of a text of exactly `n` ASCII 'a' characters.
fn text_of_len(n: u32) -> Vec<u8> {
    vec![b'a'; n as usize]
}

#[test]
fn constants_have_expected_values() {
    assert_eq!(MAX_STRING_LEN, 256);
    assert_eq!(MAX_CONTRIBUTORS, 1_000);
    assert_eq!(MAX_MILESTONES, 20);
}

// ── validate_title ────────────────────────────────────────────────────────────

#[test]
fn validate_title_empty_is_true() {
        assert!(validate_title(&text_of_len(0)));
}

#[test]
fn validate_title_at_limit_is_true() {
        assert!(validate_title(&text_of_len(MAX_STRING_LEN)));
}

#[test]
fn validate_title_over_limit_is_false() {
        assert!(!validate_title(&text_of_len(MAX_STRING_LEN + 1)));
}

// ── validate_description ──────────────────────────────────────────────────────

#[test]
fn validate_description_empty_is_true() {
        assert!(validate_description(&text_of_len(0)));
}

#[test]
fn validate_description_at_limit_is_true() {
        assert!(validate_description(&text_of_len(MAX_STRING_LEN)));
}

#[test]
fn validate_description_over_limit_is_false() {
        assert!(!validate_description(&text_of_len(MAX_STRING_LEN + 1)));
}

// ── validate_social_links ─────────────────────────────────────────────────────

#[test]
fn validate_social_links_empty_is_true() {
        assert!(validate_social_links(&text_of_len(0)));
}

#[test]
fn validate_social_links_at_limit_is_true() {
        assert!(validate_social_links(&text_of_len(MAX_STRING_LEN)));
}

#[test]
fn validate_social_links_over_limit_is_false() {
        assert!(!validate_social_links(&text_of_len(MAX_STRING_LEN + 1)));
}

// ── validate_roadmap_description ──────────────────────────────────────────────

#[test]
fn validate_roadmap_description_empty_is_true() {
        assert!(validate_roadmap_description(&text_of_len(0)));
}

#[test]
fn validate_roadmap_description_at_limit_is_true() {
        assert!(validate_roadmap_description(&text_of_len(MAX_STRING_LEN)));
}

#[test]
fn validate_roadmap_description_over_limit_is_false() {
        assert!(!validate_roadmap_description(&text_of_len(MAX_STRING_LEN + 1)));
}

// ── validate_bonus_goal_description ───────────────────────────────────────────

#[test]
fn validate_bonus_goal_description_empty_is_true() {
        assert!(validate_bonus_goal_description(&text_of_len(0)));
}

#[test]
fn validate_bonus_goal_description_at_limit_is_true() {
        assert!(validate_bonus_goal_description(&text_of_len(MAX_STRING_LEN)));
}

#[test]
fn validate_bonus_goal_description_over_limit_is_false() {
        assert!(!validate_bonus_goal_description(&text_of_len(MAX_STRING_LEN + 1)));
}

// ── validate_metadata_total_length ────────────────────────────────────────────

#[test]
fn validate_metadata_total_length_zero_is_true() {
    assert!(validate_metadata_total_length(0));
}

#[test]
fn validate_metadata_total_length_at_limit_is_true() {
    // MAX_STRING_LEN * 5 == 1280
    assert!(validate_metadata_total_length(MAX_STRING_LEN * 5));
}

#[test]
fn validate_metadata_total_length_one_over_limit_is_false() {
    assert!(!validate_metadata_total_length(MAX_STRING_LEN * 5 + 1));
}

#[test]
fn validate_metadata_total_length_large_value_is_false() {
    assert!(!validate_metadata_total_length(u32::MAX));
}

// ── validate_contributor_capacity ─────────────────────────────────────────────

#[test]
fn validate_contributor_capacity_zero_is_true() {
    assert!(validate_contributor_capacity(0));
}

#[test]
fn validate_contributor_capacity_one_below_max_is_true() {
    assert!(validate_contributor_capacity(MAX_CONTRIBUTORS - 1));
}

#[test]
fn validate_contributor_capacity_at_max_is_false() {
    // The guard is `len < MAX_CONTRIBUTORS`, so at exactly MAX it returns false.
    assert!(!validate_contributor_capacity(MAX_CONTRIBUTORS));
}

#[test]
fn validate_contributor_capacity_over_max_is_false() {
    assert!(!validate_contributor_capacity(MAX_CONTRIBUTORS + 10));
}

// ── validate_pledger_capacity ─────────────────────────────────────────────────

#[test]
fn validate_pledger_capacity_zero_is_true() {
    assert!(validate_pledger_capacity(0));
}

#[test]
fn validate_pledger_capacity_one_below_max_is_true() {
    // Pledgers share the same limit as contributors.
    assert!(validate_pledger_capacity(MAX_CONTRIBUTORS - 1));
}

#[test]
fn validate_pledger_capacity_at_max_is_false() {
    assert!(!validate_pledger_capacity(MAX_CONTRIBUTORS));
}

#[test]
fn validate_pledger_capacity_over_max_is_false() {
    assert!(!validate_pledger_capacity(MAX_CONTRIBUTORS + 5));
}

// ── validate_roadmap_capacity ─────────────────────────────────────────────────

#[test]
fn validate_roadmap_capacity_zero_is_true() {
    assert!(validate_roadmap_capacity(0));
}

#[test]
fn validate_roadmap_capacity_one_below_limit_is_true() {
    // Hard limit in implementation is < 20.
    assert!(validate_roadmap_capacity(19));
}

#[test]
fn validate_roadmap_capacity_at_limit_is_false() {
    assert!(!validate_roadmap_capacity(20));
}

#[test]
fn validate_roadmap_capacity_over_limit_is_false() {
    assert!(!validate_roadmap_capacity(25));
}

// ── validate_stretch_goal_capacity ────────────────────────────────────────────

#[test]
fn validate_stretch_goal_capacity_zero_is_true() {
    assert!(validate_stretch_goal_capacity(0));
}

#[test]
fn validate_stretch_goal_capacity_one_below_limit_is_true() {
    // Hard limit in implementation is < 10.
    assert!(validate_stretch_goal_capacity(9));
}

#[test]
fn validate_stretch_goal_capacity_at_limit_is_false() {
    assert!(!validate_stretch_goal_capacity(10));
}

#[test]
fn validate_stretch_goal_capacity_over_limit_is_false() {
    assert!(!validate_stretch_goal_capacity(15));
}

// ── validate_milestone_capacity ───────────────────────────────────────────────

#[test]
fn validate_milestone_capacity_zero_is_true() {
    assert!(validate_milestone_capacity(0));
}

#[test]
fn validate_milestone_capacity_one_below_max_is_true() {
    assert!(validate_milestone_capacity(MAX_MILESTONES - 1));
}

#[test]
fn validate_milestone_capacity_at_max_is_false() {
    assert!(!validate_milestone_capacity(MAX_MILESTONES));
}

#[test]
fn validate_milestone_capacity_over_max_is_false() {
    assert!(!validate_milestone_capacity(MAX_MILESTONES + 5));
}

// ── validate_milestone_description ────────────────────────────────────────────

#[test]
fn validate_milestone_description_non_empty_short_is_true() {
        assert!(validate_milestone_description(b"Q1 milestone"));
}

#[test]
fn validate_milestone_description_empty_is_false() {
        assert!(!validate_milestone_description(&text_of_len(0)));
}

#[test]
fn validate_milestone_description_at_limit_is_true() {
        assert!(validate_milestone_description(&text_of_len(MAX_STRING_LEN)));
}

#[test]
fn validate_milestone_description_over_limit_is_false() {
        assert!(!validate_milestone_description(&text_of_len(MAX_STRING_LEN + 1)));
}

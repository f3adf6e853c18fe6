use ghost_hunt::evidence::{
    emf_five_candidate, emf_level, overlap_distance, spiritbox_is_evidence, spiritbox_reply,
    EvidenceTuning, SpiritboxReply,
};
use ghost_hunt::states::GhostType;

#[test]
fn spirit_emf_levels_ramp_with_distance() {
    let same_room = true;
    let tuning = EvidenceTuning::default();
    assert_eq!(
        emf_level(GhostType::Spirit, tuning.emf_range_4 as u64 - 100, same_room, &tuning),
        4
    );
    assert_eq!(
        emf_level(GhostType::Spirit, tuning.emf_range_4 as u64, same_room, &tuning),
        4
    );
    assert_eq!(
        emf_level(GhostType::Spirit, tuning.emf_range_4 as u64 + 200, same_room, &tuning),
        3
    );
    assert_eq!(
        emf_level(GhostType::Spirit, tuning.emf_range_3 as u64 + 200, same_room, &tuning),
        2
    );
    assert_eq!(
        emf_level(GhostType::Spirit, tuning.emf_range_2 as u64 + 600, same_room, &tuning),
        1
    );
}

#[test]
fn spirit_emf_is_one_at_far_distance() {
    let tuning = EvidenceTuning::default();
    assert_eq!(
        emf_level(GhostType::Spirit, tuning.emf_range_2 as u64 + 600, false, &tuning),
        1
    );
}

#[test]
fn non_spirit_emf_is_one() {
    let tuning = EvidenceTuning::default();
    assert_eq!(emf_level(GhostType::Banshee, 500, true, &tuning), 1);
    assert_eq!(emf_level(GhostType::Banshee, 500, false, &tuning), 1);
    assert_eq!(emf_level(GhostType::Onryo, 9000, true, &tuning), 1);
}

#[test]
fn emf_five_candidate_requires_intersection() {
    let tuning = EvidenceTuning::default();
    let overlap = overlap_distance(&tuning);
    assert!(emf_five_candidate(GhostType::Spirit, overlap - 100, &tuning));
    assert!(emf_five_candidate(GhostType::Spirit, overlap, &tuning));
    assert!(!emf_five_candidate(GhostType::Spirit, overlap + 100, &tuning));
    assert!(!emf_five_candidate(GhostType::Banshee, overlap - 100, &tuning));
}

#[test]
fn spiritbox_replies_match_banshee_distance() {
    assert_eq!(
        spiritbox_reply(GhostType::Banshee, true),
        SpiritboxReply::Here
    );
    assert_eq!(
        spiritbox_reply(GhostType::Banshee, false),
        SpiritboxReply::Static
    );
}

#[test]
fn spiritbox_non_banshee_is_static_or_silence() {
    assert_eq!(
        spiritbox_reply(GhostType::Spirit, false),
        SpiritboxReply::Static
    );
    assert_eq!(
        spiritbox_reply(GhostType::Onryo, true),
        SpiritboxReply::Static
    );
}

#[test]
fn spiritbox_evidence_only_for_close_or_here() {
    assert!(spiritbox_is_evidence(SpiritboxReply::Here));
    assert!(!spiritbox_is_evidence(SpiritboxReply::Static));
}

#[test]
fn emf_bands_at_each_edge() {
    let tuning = EvidenceTuning::default();
    assert_eq!(overlap_distance(&tuning), 2000);
    assert_eq!(emf_level(GhostType::Spirit, 0, true, &tuning), 4);
    assert_eq!(emf_level(GhostType::Spirit, 2501, true, &tuning), 3);
    assert_eq!(emf_level(GhostType::Spirit, 4500, true, &tuning), 3);
    assert_eq!(emf_level(GhostType::Spirit, 4501, true, &tuning), 2);
    assert_eq!(emf_level(GhostType::Spirit, 6500, true, &tuning), 2);
    assert_eq!(emf_level(GhostType::Spirit, 6501, true, &tuning), 1);
    assert_eq!(emf_level(GhostType::Onryo, 0, true, &tuning), 1);
    assert!(!emf_five_candidate(GhostType::Onryo, 0, &tuning));
}

#[test]
fn spiritbox_reply_words() {
    assert_eq!(SpiritboxReply::Static.as_str(), "Static...");
    assert_eq!(SpiritboxReply::Here.as_str(), "Right... here.");
    assert_eq!(spiritbox_reply(GhostType::Spirit, true), SpiritboxReply::Static);
    assert_eq!(spiritbox_reply(GhostType::Onryo, false), SpiritboxReply::Static);
}

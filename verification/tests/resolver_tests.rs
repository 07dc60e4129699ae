use momcap::resolver::CapabilityProbe;
use momcap::resolver::DeviceCandidate;
use momcap::resolver::MomDeviceError;
use momcap::resolver::find_matching_dev;

fn cand(id: u32, name: &str, probe: CapabilityProbe) -> DeviceCandidate {
    DeviceCandidate { id, name: name.to_string(), probe }
}

#[test]
fn empty_candidate_set_is_not_found() {
    let r = find_matching_dev("Meta Audio Debug", &vec![]);
    assert!(matches!(r, Err(MomDeviceError::DADNotFound("Meta Audio Debug"))));
}

#[test]
fn no_name_containing_substring_is_not_found() {
    let candidates = vec![
        cand(1, "Built-in Microphone", CapabilityProbe::Supports),
        cand(2, "HDMI Output", CapabilityProbe::Supports),
    ];
    let r = find_matching_dev("Meta Audio Debug", &candidates);
    assert!(matches!(r, Err(MomDeviceError::DADNotFound(_))));
}

#[test]
fn substring_match_is_case_sensitive() {
    let candidates = vec![cand(1, "meta audio debug device", CapabilityProbe::Supports)];
    let r = find_matching_dev("Meta Audio Debug", &candidates);
    assert!(r.is_err());
}

#[test]
fn failed_probe_is_skipped_and_search_continues() {
    let candidates = vec![
        cand(1, "Meta Audio Debug A", CapabilityProbe::ProbeFailed),
        cand(2, "Meta Audio Debug B", CapabilityProbe::Supports),
    ];
    let (id, name) = find_matching_dev("Meta Audio Debug", &candidates).unwrap();
    assert_eq!(id, 2);
    assert_eq!(name, "Meta Audio Debug B");
}

#[test]
fn lacking_scope_counts_as_non_match() {
    let candidates = vec![
        cand(1, "Meta Audio Debug A", CapabilityProbe::LacksScope),
        cand(2, "Unrelated", CapabilityProbe::Supports),
    ];
    let r = find_matching_dev("Meta Audio Debug", &candidates);
    assert!(r.is_err());
}

#[test]
fn first_of_several_matches_wins() {
    let candidates = vec![
        cand(5, "Other", CapabilityProbe::Supports),
        cand(6, "Meta Audio Debug One", CapabilityProbe::Supports),
        cand(7, "Meta Audio Debug Two", CapabilityProbe::Supports),
    ];
    let (id, _name) = find_matching_dev("Meta Audio Debug", &candidates).unwrap();
    assert_eq!(id, 6);
}

#[test]
fn not_found_error_message_names_the_substring() {
    let e = MomDeviceError::DADNotFound("Meta Audio Debug");
    assert_eq!(
        e.message(),
        "Could not find the DAD on this host: searched for device with 'Meta Audio Debug'"
    );
    let u = MomDeviceError::Unknown("boom");
    assert_eq!(u.message(), "unknown error: boom");
}

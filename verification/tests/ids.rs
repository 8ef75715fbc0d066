use cargo_berth::ids::text_sorts_before;
use cargo_berth::ids::wire_ordered_texts;
use cargo_berth::output::drift::DriftEffect;
use cargo_berth::output::drift::DriftPathAttributionOutcome;
use cargo_berth::output::drift::DriftReport;
use cargo_berth::output::drift::ReservationDriftResult;
use cargo_berth::output::envelope::OutputEnvelope;

fn texts(values: &[&str]) -> Vec<String> {
    values.iter().map(|value| (*value).to_owned()).collect()
}

#[test]
fn wire_order_compares_by_code_point_then_length() {
    let before = |left: &str, right: &str| text_sorts_before(&left.to_owned(), &right.to_owned());
    assert!(before("a", "b"));
    assert!(!before("b", "a"));
    assert!(before("ab", "b"));
    assert!(before("a", "ab"));
    assert!(!before("ab", "a"));
    assert!(before("", "a"));
    assert!(!before("a", "a"));
    assert!(before("Z", "a"));
    assert!(before("z", "é"));
    for (left, right) in [("a", "b"), ("ab", "b"), ("Z", "a"), ("z", "é"), ("", "x")] {
        assert_eq!(before(left, right), left.to_owned() < right.to_owned());
    }
}

#[test]
fn wire_ordered_texts_sort_and_name_each_text_once() {
    assert_eq!(
        wire_ordered_texts(&texts(&["b", "a", "ab", "b", ""])),
        texts(&["", "a", "ab", "b"])
    );
    assert!(wire_ordered_texts(&[]).is_empty());
}

#[test]
fn drift_blockers_are_reported_in_wire_order() {
    let envelope = OutputEnvelope::drift(DriftReport {
        results: vec![ReservationDriftResult::Changed {
            reservation_id: "r1".to_owned(),
            effects: vec![DriftEffect::Collision {
                foreign_reservation_ids: texts(&["z9", "a1", "z9"]),
                paths: texts(&["p"]),
            }],
        }],
        path_attribution: DriftPathAttributionOutcome::NotNeeded,
    });
    assert_eq!(envelope.blocked_by, texts(&["a1", "z9"]));
}

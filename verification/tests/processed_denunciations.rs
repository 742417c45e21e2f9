use massa::processed_denunciations::{
    DenunciationIndex, HistorySearchResult, ProcessedDenunciationsChanges,
    SpeculativeProcessedDenunciations,
};
use massa::slot::Slot;

fn header(p: u64) -> DenunciationIndex {
    DenunciationIndex::BlockHeader { slot: Slot::new(p, 0) }
}

#[test]
fn lookup_order() {
    let mut s = SpeculativeProcessedDenunciations::new();
    let d = header(1);
    let e = DenunciationIndex::Endorsement { slot: Slot::new(1, 0), index: 2 };
    assert!(!s.is_de_processed(&d, HistorySearchResult::<()>::Absent, true));
    assert!(s.is_de_processed(&d, HistorySearchResult::Present(()), false));
    assert!(s.is_de_processed(&d, HistorySearchResult::<()>::NoInfo, true));
    assert!(!s.is_de_processed(&d, HistorySearchResult::<()>::NoInfo, false));
    s.insert_processed_de(d);
    assert!(s.is_de_processed(&d, HistorySearchResult::<()>::Absent, false));
    assert!(!s.is_de_processed(&e, HistorySearchResult::<()>::Absent, false));
}

#[test]
fn take_snapshot_reset() {
    let mut s = SpeculativeProcessedDenunciations::new();
    s.insert_processed_de(header(1));
    let snap = s.get_snapshot();
    s.insert_processed_de(header(2));
    s.insert_processed_de(header(2));
    assert!(s.is_de_processed(&header(2), HistorySearchResult::<()>::Absent, false));
    s.reset_to_snapshot(snap);
    assert!(!s.is_de_processed(&header(2), HistorySearchResult::<()>::Absent, false));
    assert!(s.is_de_processed(&header(1), HistorySearchResult::<()>::Absent, false));
    let taken: ProcessedDenunciationsChanges = s.take();
    assert_eq!(taken.len(), 1);
    assert!(taken.contains(&header(1)));
    assert!(!s.is_de_processed(&header(1), HistorySearchResult::<()>::Absent, false));
}

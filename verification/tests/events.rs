use rgb_lightning_node::channel_events::{
    advance_discarded, refresh_again, ChannelClosed, CloseStep, DiscardStep, Forward, ForwardReply,
    ForwardStep,
};
use rgb_lightning_node::kv_store::StoreError;
use rgb_lightning_node::reimport::{
    consignment_file, import_outcome, Reimport, ReimportReply, ReimportStep,
};

fn texts(items: &[&str]) -> Vec<String> {
    items.iter().map(|s| s.to_string()).collect()
}

fn not_found() -> StoreError {
    StoreError {
        not_found: true,
        text: "missing".to_string(),
    }
}

fn broken() -> StoreError {
    StoreError {
        not_found: false,
        text: "broken".to_string(),
    }
}

#[test]
fn closed_channels_release_before_they_are_forgotten() {
    let mut steps = vec![];
    let mut job = ChannelClosed::new(true);
    while job.step != CloseStep::Done {
        steps.push(job.step);
        job = job.advance(true);
    }
    assert_eq!(
        steps,
        vec![
            CloseStep::RemoveConsignment,
            CloseStep::ForgetStaged,
            CloseStep::ReleaseFunding,
            CloseStep::RemoveTombstone,
            CloseStep::ForgetChannel,
            CloseStep::RemoveDraftMarker,
            CloseStep::RemoveMarker,
        ]
    );
    let unfunded = ChannelClosed::new(false);
    assert_eq!(unfunded.step, CloseStep::ReleaseFunding);
    let forgotten = unfunded.advance(false).advance(false).advance(false);
    assert_eq!(forgotten.step, CloseStep::Done);
}

#[test]
fn discarded_fundings_are_released_and_forgotten() {
    let step = advance_discarded(DiscardStep::ReleaseFunding);
    assert_eq!(step, DiscardStep::ForgetChannel);
    let step = advance_discarded(step);
    assert_eq!(step, DiscardStep::RemoveMarker);
    assert_eq!(advance_discarded(step), DiscardStep::Done);
    assert!(refresh_again(&Ok(())));
    assert!(!refresh_again(&Err("offline".to_string())));
}

#[test]
fn forwards_move_both_balances() {
    let job = Forward::payment_forwarded(Some(5), Some(6))
        .advance(ForwardReply::Done)
        .advance(ForwardReply::Done);
    assert!(matches!(job.step, ForwardStep::ReadNext));
    let job = job.advance(ForwardReply::Read(Ok(())));
    assert!(matches!(job.step, ForwardStep::UpdateNext));
    let job = job.advance(ForwardReply::Done);
    assert!(matches!(job.step, ForwardStep::ReadPrevious));
    let job = job.advance(ForwardReply::Read(Err(not_found())));
    assert!(matches!(job.step, ForwardStep::Record));
    assert!(matches!(
        job.advance(ForwardReply::Done).step,
        ForwardStep::Done
    ));
}

#[test]
fn unreadable_balances_replay_a_forward() {
    let start = |o, i| {
        Forward::payment_forwarded(o, i)
            .advance(ForwardReply::Done)
            .advance(ForwardReply::Done)
    };
    assert!(matches!(
        start(Some(5), None)
            .advance(ForwardReply::Read(Err(broken())))
            .step,
        ForwardStep::Replay(e) if e == broken()
    ));
    assert!(matches!(
        start(None, Some(5))
            .advance(ForwardReply::Read(Err(broken())))
            .step,
        ForwardStep::Replay(_)
    ));
    assert!(matches!(start(None, None).step, ForwardStep::Record));
}

#[test]
fn nothing_stored_means_nothing_to_replay() {
    let job = Reimport::reimport_funding_consignments().advance(ReimportReply::Marker(false));
    assert_eq!(job.step, ReimportStep::ListConsignments);
    let job = job.advance(ReimportReply::Listed(Ok(vec![])));
    assert_eq!(job.step, ReimportStep::WriteMarker);
    assert_eq!(job.advance(ReimportReply::Written).step, ReimportStep::Done);
}

#[test]
fn unknown_assets_are_imported_and_transitions_replayed() {
    let job = Reimport::reimport_funding_consignments()
        .advance(ReimportReply::Marker(true))
        .advance(ReimportReply::Listed(Ok(texts(&["t0", "t1", "t2"]))))
        .advance(ReimportReply::Listed(Ok(texts(&["known"]))));
    assert_eq!(job.step, ReimportStep::Load(0));
    let job = job.advance(ReimportReply::Loaded(Some("known".to_string())));
    assert_eq!(job.step, ReimportStep::Load(1));
    let job = job.advance(ReimportReply::Loaded(None));
    assert_eq!(job.step, ReimportStep::Load(2));
    let job = job.advance(ReimportReply::Loaded(Some("new".to_string())));
    assert_eq!(job.step, ReimportStep::Import(2));
    let job = job.advance(ReimportReply::Imported(true));
    assert_eq!(job.step, ReimportStep::ListFascias);
    let job = job.advance(ReimportReply::Listed(Ok(texts(&["f0", "f1"]))));
    assert_eq!(job.step, ReimportStep::Replay(0));
    let job = job.advance(ReimportReply::Replayed);
    assert_eq!(job.step, ReimportStep::Replay(1));
    let job = job.advance(ReimportReply::Replayed);
    assert_eq!(job.step, ReimportStep::WriteMarker);
}

#[test]
fn finished_replays_are_not_repeated() {
    let job = Reimport::reimport_funding_consignments()
        .advance(ReimportReply::Marker(true))
        .advance(ReimportReply::Listed(Ok(texts(&["t0"]))))
        .advance(ReimportReply::Listed(Ok(texts(&["known"]))))
        .advance(ReimportReply::Loaded(Some("known".to_string())));
    assert_eq!(job.step, ReimportStep::Done);
    for failing in [0, 1] {
        let mut job = Reimport::reimport_funding_consignments().advance(ReimportReply::Marker(false));
        if failing == 1 {
            job = job.advance(ReimportReply::Listed(Ok(texts(&["t0"]))));
        }
        let job = job.advance(ReimportReply::Listed(Err("unreadable".to_string())));
        assert_eq!(job.step, ReimportStep::Done);
    }
}

#[test]
fn saved_assets_count_as_imported() {
    assert_eq!(import_outcome(Ok(())), Ok(()));
    assert_eq!(
        import_outcome(Err(
            "error: UNIQUE constraint failed: asset.id".to_string()
        )),
        Ok(())
    );
    assert_eq!(
        import_outcome(Err("UNIQUE constraint".to_string())),
        Err("UNIQUE constraint".to_string())
    );
    assert_eq!(consignment_file("ab"), "reimport_consignment_ab");
}

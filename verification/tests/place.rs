use mumbleacre::capture::{Capture, CAPTURE_PERMIT};
use mumbleacre::channel::{ChannelMover, FoundStep, MoveStep, ACRE_CHANNEL_NAME, RETURN_DELAY};
use mumbleacre::context::{is_same_place, plain, Context};

const SECOND: u64 = 1_000_000_000;

fn context(channel: i32, everyone: &[u32]) -> Context {
    Context::new(1, 7, channel, everyone, "uid".to_owned(), "name".to_owned()).unwrap()
}

#[test]
fn contexts_list_the_other_users_in_ascending_order() {
    let context = context(3, &[9, 7, 2, 9, 5]);
    assert_eq!(context.users, [2, 5, 9, 9]);
    assert!(context.has_user(5));
    assert!(!context.has_user(7));
    let crowd: Vec<u32> = (0..129).collect();
    assert!(Context::new(1, 7, 3, &crowd, String::new(), String::new()).is_none());
    assert!(Context::new(1, 7, 3, &crowd[..128], String::new(), String::new()).is_some());
}

#[test]
fn members_come_and_go_without_a_change_of_place() {
    let here = Some(context(3, &[2, 7]));
    assert!(is_same_place(&here, &Some(context(3, &[7]))));
    assert!(!is_same_place(&here, &Some(context(4, &[2, 7]))));
    assert!(!is_same_place(&here, &None));
    assert!(is_same_place(&None, &None));
}

#[test]
fn told_names_are_plain_and_short() {
    assert_eq!(plain("Canal,ñ\t~ A"), "Canal___~ A");
    assert_eq!(plain(&"x".repeat(200)).len(), 128);
    assert_eq!(plain(""), "");
}

#[test]
fn a_permit_passes_the_microphone_until_it_ends() {
    let closed = Capture {
        filtering: true,
        forced: false,
        native: false,
        deadline: 0,
    };
    let mut samples = [5i16, -6];
    let (heard, silenced) = closed.input(&mut samples, true, 10);
    assert!(silenced && heard.native());
    assert_eq!(samples, [0, 0]);

    let open = closed.renew(10);
    assert_eq!(open.deadline, 10 + CAPTURE_PERMIT);
    let mut samples = [5i16, -6];
    assert!(!open.input(&mut samples, false, 259).1);
    assert_eq!(samples, [5, -6]);
    assert!(open.input(&mut samples, false, 260).1);
    assert_eq!(samples, [0, 0]);
    assert_eq!(closed.renew(u64::MAX).deadline, u64::MAX);
    assert_eq!(open.close().deadline, 0);
    let mut samples = [5i16, -6];
    assert!(!closed.filter(false).input(&mut samples, true, 10).1);
    assert_eq!(samples, [5, -6]);
}

#[test]
fn a_forced_microphone_is_no_native_speech() {
    let forced = Capture {
        filtering: true,
        forced: false,
        native: true,
        deadline: 9,
    }
    .force(true);
    let (after, _) = forced.input(&mut [], false, 0);
    assert!(after.native());
    assert!(!after.clear_native().native());
    assert_eq!(forced.settle(false, true), forced);
    let refused = forced.settle(false, false);
    assert!(!refused.forced && refused.deadline == 0);
    let fresh = after.init();
    assert!(fresh.forced && !fresh.filtering && !fresh.native && fresh.deadline == 0);
}

#[test]
fn one_attempt_moves_the_user_and_a_loss_brings_them_back() {
    assert_eq!(ACRE_CHANNEL_NAME, "ACRE");
    let mut mover = ChannelMover::default();
    let lobby = context(3, &[7]);
    assert_eq!(mover.observe(false, false, &Some(context(3, &[7])), 0), MoveStep::Nothing);
    assert_eq!(mover.observe(true, false, &None, 0), MoveStep::Nothing);
    assert_eq!(mover.observe(true, false, &Some(context(3, &[7])), 0), MoveStep::FindChannel);
    assert_eq!(ChannelMover::found(&lobby, None), FoundStep::ChannelMissing);
    assert_eq!(ChannelMover::found(&lobby, Some(3)), FoundStep::AlreadyThere);
    assert_eq!(ChannelMover::found(&lobby, Some(8)), FoundStep::Move { channel: 8 });
    mover.moved(&lobby, 8);

    let there = Some(context(8, &[7, 9]));
    assert_eq!(mover.observe(true, false, &there, SECOND), MoveStep::Nothing);
    assert_eq!(mover.observe(false, false, &there, 2 * SECOND), MoveStep::Nothing);
    assert_eq!(mover.observe(true, false, &there, 3 * SECOND), MoveStep::Nothing);
    assert_eq!(
        mover.observe(false, true, &there, 4 * SECOND),
        MoveStep::Return { channel: 3 }
    );
    assert_eq!(mover.observe(true, false, &there, 5 * SECOND), MoveStep::Nothing);
    assert_eq!(mover.observe(true, false, &Some(lobby), 6 * SECOND), MoveStep::FindChannel);
}

#[test]
fn a_short_loss_brings_the_user_back_too() {
    let mut mover = ChannelMover::default();
    let lobby = context(3, &[7]);
    let there = Some(context(8, &[7]));
    assert_eq!(mover.observe(true, false, &Some(context(3, &[7])), 0), MoveStep::FindChannel);
    mover.moved(&lobby, 8);
    assert_eq!(mover.observe(true, true, &there, 1), MoveStep::Return { channel: 3 });

    let mut mover = ChannelMover::default();
    assert_eq!(mover.observe(true, true, &Some(context(3, &[7])), 0), MoveStep::FindChannel);
    mover.moved(&lobby, 8);
    assert_eq!(mover.observe(false, true, &None, 1), MoveStep::Nothing);
    assert_eq!(mover.observe(true, false, &there, 2), MoveStep::Return { channel: 3 });
}

#[test]
fn a_connection_given_up_counts_as_lost_if_it_stays_away() {
    let mut mover = ChannelMover::default();
    let lobby = context(3, &[7]);
    assert_eq!(mover.observe(true, false, &Some(context(3, &[7])), 0), MoveStep::FindChannel);
    mover.moved(&lobby, 8);
    let there = Some(context(8, &[7]));
    assert_eq!(mover.observe(false, false, &there, 4 * SECOND), MoveStep::Nothing);
    assert_eq!(
        mover.observe(false, false, &there, 4 * SECOND + RETURN_DELAY - 1),
        MoveStep::Nothing
    );
    assert_eq!(
        mover.observe(false, false, &there, 4 * SECOND + RETURN_DELAY),
        MoveStep::Return { channel: 3 }
    );
}

#[test]
fn users_who_were_not_moved_or_went_on_stay() {
    let mut mover = ChannelMover::default();
    let there = Some(context(8, &[7]));
    assert_eq!(mover.observe(true, false, &there, 0), MoveStep::FindChannel);
    assert_eq!(mover.observe(false, true, &there, SECOND), MoveStep::Nothing);
    assert_eq!(mover.observe(false, false, &there, 9 * SECOND), MoveStep::Nothing);

    assert_eq!(mover.observe(true, false, &there, 10 * SECOND), MoveStep::FindChannel);
    mover.moved(&context(3, &[7]), 8);
    let elsewhere = Some(context(5, &[7]));
    assert_eq!(mover.observe(false, true, &elsewhere, 11 * SECOND), MoveStep::Nothing);
    assert_eq!(mover.observe(false, false, &elsewhere, 20 * SECOND), MoveStep::Nothing);
}

#[test]
fn a_loss_before_the_move_is_done_brings_the_user_back() {
    let mut mover = ChannelMover::default();
    let lobby = context(3, &[7]);
    let here = Some(context(3, &[7]));
    assert_eq!(mover.observe(true, false, &here, 0), MoveStep::FindChannel);
    mover.moved(&lobby, 8);
    assert_eq!(mover.observe(false, true, &here, 1), MoveStep::Return { channel: 3 });
    let there = Some(context(8, &[7]));
    assert_eq!(mover.observe(true, false, &there, 2), MoveStep::Nothing);
    assert_eq!(mover.observe(true, false, &here, 3), MoveStep::FindChannel);
}

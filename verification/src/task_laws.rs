//! What holds of the Classic Bluetooth task as a whole.

use crate::bytes::{lemma_to_array, to_array};
use crate::classic::{boot_report, is_keyboard};
use crate::inquiry::FoundDevice;
use crate::link_keys::{
    law_forgotten_key_is_gone, link_key, single_key, with_bonds, without_key,
    StoredClassicBond, MAX_LINK_KEYS,
};
use crate::profile::{
    battery_request, bond_of, session_profile, DeviceProfile, HidRequest,
};
use crate::reports::{keyboard_header_spec, touch_bytes, touch_header_spec, AclHeader};
use crate::scan_cache::{
    is_first, known_cod, known_name, law_lookup_gives_back_what_was_recorded,
    law_other_devices_are_kept, law_recording_keeps_the_cache_well_formed, lemma_only_position,
    no_duplicates, position, CachedDevice, MAX_CACHED_DEVICES,
};
use crate::task_rules::{
    all_noted, end_effects, found_devices, name_to_store, next, noted, pending_in, setup_effects,
    startup_effects, state_ok, Transition, World,
};
use crate::task_types::{
    ClassicCommand, ConnectionState, Effect, Event, Link, Notice, Pending, Phase,
    CONNECT_GIVE_UP_MILLIS, KEY_SEND_MILLIS, MAX_CONNECT_ATTEMPTS, MAX_SETUP_READS,
    RECONNECT_MILLIS,
};
use vstd::prelude::*;

verus! {

/// The events that a pending operation can end with.
pub open spec fn answers(pending: Pending, event: Event<'_>) -> bool {
    match pending {
        Pending::Delay { millis } => event is Elapsed,
        Pending::LoadBonds => event is BondsLoaded,
        Pending::ReceiveCommand => event is Command,
        Pending::StartInquiry { lap, length, responses } => event is InquiryStarted,
        Pending::InquiryInput => event is Command || is_read(event),
        Pending::Connect { address } => event is Connected || event is ConnectFailed,
        Pending::PersistBond { address, key, profile, auto_connect, name, name_len } =>
            event is BondPersisted,
        Pending::OpenChannels { handle } => event is ChannelsOpened,
        Pending::PollChannels => event is ChannelsReady,
        Pending::ReadPacket => is_read(event),
        Pending::ProcessSetupAcl { acl } => event is AclProcessed,
        Pending::SessionInput => event is Command || event is BatteryTick || is_read(event),
        Pending::ProcessReportAcl { acl } => event is AclProcessed,
        Pending::TrySendKeys { header, report } => event is KeysSent,
        Pending::SendKeys { header, report, millis } => event is KeysSent,
    }
}

/// The outcomes of a read from the controller.
pub open spec fn is_read(event: Event<'_>) -> bool {
    event is Hci || event is Acl || event is OtherPacket || event is ReadFailed
}

/// The connected device in a phase, once its profile is chosen.
pub open spec fn link_in(phase: Phase) -> Option<Link> {
    match phase {
        Phase::PersistingBond { link, key, name, name_len } => Some(link),
        Phase::OpeningChannels { link } => Some(link),
        Phase::PollingChannels { link, reads } => Some(link),
        Phase::ReadingSetup { link, reads } => Some(link),
        Phase::ProcessingSetup { link, reads, acl } => Some(link),
        Phase::SetupPause { link, reads } => Some(link),
        Phase::InSession { link } => Some(link),
        Phase::ProcessingReport { link, acl } => Some(link),
        Phase::SessionPause { link } => Some(link),
        Phase::SendingKeys { link, report } => Some(link),
        Phase::AwaitingKeyRoom { link, report } => Some(link),
        _ => None,
    }
}

/// The phases of a session.
pub open spec fn in_session(phase: Phase) -> bool {
    phase is InSession || phase is ProcessingReport || phase is SessionPause || phase is SendingKeys
        || phase is AwaitingKeyRoom
}

/// The world after a step.
pub open spec fn after(world: World, event: Event<'_>) -> World {
    (next(world, event)->0).0
}

/// What a step has done.
pub open spec fn done<'a>(world: World, event: Event<'a>) -> Seq<Effect<'a>> {
    (next(world, event)->0).1
}

/// The task takes exactly the outcomes of what it waits for: it never gets stuck
/// on an answer, and never acts on anything else.
pub proof fn law_answers_are_taken(world: World, event: Event<'_>)
    ensures
        next(world, event) is Some <==> answers(pending_in(world.state.phase), event),
{
}

/// Attempts, reads and counts stay within their limits.
pub proof fn law_limits_hold(world: World, event: Event<'_>)
    requires
        state_ok(world.state),
        next(world, event) is Some,
    ensures
        state_ok(after(world, event).state),
{
}

/// The BLE connection manager is released by the first step and by no other.
pub proof fn law_init_is_signalled_by_the_first_step(world: World, event: Event<'_>)
    requires
        next(world, event) is Some,
    ensures
        done(world, event).contains(Effect::SignalInitDone) <==> world.state.phase is Settling,
        world.state.phase is Settling ==> done(world, event) == startup_effects(),
        !(after(world, event).state.phase is Settling),
{
    let effects = done(world, event);
    if world.state.phase is Settling {
        assert(effects[3] == Effect::SignalInitDone);
    }
}

/// The scanned devices change only by Inquiry results.
pub proof fn law_only_inquiry_changes_the_cache(world: World, event: Event<'_>)
    requires
        next(world, event) is Some,
    ensures
        !(world.state.phase is Inquiring && event is Hci) ==> after(world, event).devices
            == world.devices,
        world.state.phase is Inquiring ==> (event matches Event::Hci { kind, data } ==> after(
            world,
            event,
        ).devices == all_noted(world.devices, found_devices(kind, data@))),
{
}

/// The task itself changes the link keys only when it loads them at startup and
/// when it is told to forget a device while idle or in a session.
pub proof fn law_only_bonds_and_commands_change_the_keys(world: World, event: Event<'_>)
    requires
        next(world, event) is Some,
    ensures
        after(world, event).keys == (match (world.state.phase, event) {
            (Phase::LoadingKeys, Event::BondsLoaded(bonds)) => with_bonds(world.keys, bonds@),
            (
                Phase::AwaitingCommand,
                Event::Command(ClassicCommand::ClearBond { address }),
            ) => without_key(world.keys, address),
            (
                Phase::InSession { link },
                Event::Command(ClassicCommand::ClearBond { address }),
            ) => without_key(world.keys, address),
            _ => world.keys,
        }),
{
}

/// Forgetting a device drops its link key and no other one, while idle as well as
/// in a session, and ends the session exactly if it is the connected device.
pub proof fn law_clear_bond_forgets_the_device(world: World, address: [u8; 6], other: [u8; 6])
    requires
        world.state.phase is AwaitingCommand || world.state.phase is InSession,
        other != address,
    ensures
        ({
            let event = Event::Command(ClassicCommand::ClearBond { address });
            &&& next(world, event) is Some
            &&& single_key(world.keys, address) ==> link_key(
                after(world, event).keys,
                address,
            ) is None
            &&& single_key(world.keys, other) ==> link_key(after(world, event).keys, other)
                == link_key(world.keys, other)
            &&& world.state.phase matches Phase::InSession { link } ==> (in_session(
                after(world, event).state.phase,
            ) <==> address != link.target)
            &&& world.state.phase is AwaitingCommand ==> after(
                world,
                event,
            ).state.phase is AwaitingCommand
        }),
{
    law_forgotten_key_is_gone(world.keys, address, other);
}

/// A stored bond wins: the profile of a connected device is that of its bond,
/// and without one a keyboard's if Inquiry said it is a keyboard, and the Magic
/// Trackpad's otherwise.
pub proof fn law_stored_bond_wins(
    world: World,
    target: [u8; 6],
    handle: u16,
    bonds: &[StoredClassicBond],
)
    requires
        world.state.phase == (Phase::ChoosingProfile { target, handle }),
    ensures
        ({
            let event = Event::BondsLoaded(bonds);
            let link = link_in(after(world, event).state.phase);
            &&& next(world, event) is Some
            &&& link is Some
            &&& link->0.target == target
            &&& link->0.handle == handle
            &&& done(world, event)[0] == (Effect::SetConnected {
                address: target,
                profile: link->0.profile,
            })
            &&& match bond_of(bonds@, target) {
                Some(bond) => link->0.profile == bond.profile,
                None => match known_cod(world.devices, target) {
                    Some(cod) => link->0.profile == (if is_keyboard(cod@) {
                        DeviceProfile::Keyboard
                    } else {
                        DeviceProfile::MagicTrackpad
                    }),
                    None => link->0.profile == DeviceProfile::MagicTrackpad,
                },
            }
        }),
{
}

/// A bond is written exactly if the store has a link key for the device: with
/// that key, the chosen profile, the name that Inquiry gave, and to be connected
/// to without being asked.
pub proof fn law_bond_is_written_with_the_stored_key(
    world: World,
    target: [u8; 6],
    handle: u16,
    bonds: &[StoredClassicBond],
)
    requires
        world.state.phase == (Phase::ChoosingProfile { target, handle }),
    ensures
        ({
            let event = Event::BondsLoaded(bonds);
            let phase = after(world, event).state.phase;
            match link_key(world.keys, target) {
                Some(key) => pending_in(phase) == (Pending::PersistBond {
                    address: target,
                    key,
                    profile: session_profile(bonds@, world.devices, target),
                    auto_connect: true,
                    name: name_to_store(world.devices, target).0,
                    name_len: name_to_store(world.devices, target).1,
                }),
                None => pending_in(phase) == (Pending::OpenChannels { handle }),
            }
        }),
{
}

/// A found device is known afterwards by its Class of Device, and by its name if
/// it gave one.
pub proof fn law_found_device_is_known(devices: Seq<CachedDevice>, found: FoundDevice)
    requires
        devices.len() <= MAX_CACHED_DEVICES,
        no_duplicates(devices),
    ensures
        known_cod(noted(devices, found), found.result.address) == Some(found.cod),
        found.result.name_len > 0 ==> known_name(noted(devices, found), found.result.address)
            == Some((found.result.name, found.result.name_len)),
        noted(devices, found).len() <= MAX_CACHED_DEVICES,
        no_duplicates(noted(devices, found)),
{
    let name = Some((found.result.name, found.result.name_len));
    let cod = Some(found.cod@);
    law_lookup_gives_back_what_was_recorded(devices, found.result.address, name, cod);
    law_recording_keeps_the_cache_well_formed(devices, found.result.address, name, cod);
    assert(found.cod@.take(3) == found.cod@);
    lemma_to_array(found.cod);
}

/// A connection keeps its device and its handle, and changes its profile only
/// when that device is told to.
pub proof fn law_link_is_kept(world: World, event: Event<'_>)
    requires
        next(world, event) is Some,
        link_in(world.state.phase) is Some,
        link_in(after(world, event).state.phase) is Some,
    ensures
        ({
            let before = link_in(world.state.phase)->0;
            let now = link_in(after(world, event).state.phase)->0;
            &&& now.target == before.target
            &&& now.handle == before.handle
            &&& now.profile != before.profile ==> event == Event::Command(
                ClassicCommand::UpdateProfile { address: before.target, profile: now.profile },
            )
        }),
{
}

/// A profile change on a live connection is taken over at once: the device is
/// set up anew. For any other device, or for the profile already in use, nothing
/// happens.
pub proof fn law_profile_change_runs_setup_again(
    world: World,
    link: Link,
    address: [u8; 6],
    profile: DeviceProfile,
)
    requires
        world.state.phase == (Phase::InSession { link }),
    ensures
        ({
            let event = Event::Command(ClassicCommand::UpdateProfile { address, profile });
            if address == link.target && profile != link.profile {
                &&& after(world, event).state.phase == (Phase::InSession {
                    link: Link { profile, ..link },
                })
                &&& done(world, event) == seq![Effect::SetConnected { address, profile }]
                    + setup_effects(profile)
            } else {
                next(world, event) == Some((world, Seq::<Effect>::empty()))
            }
        }),
{
}

/// What the task has no use for changes nothing: while idle there is nothing to
/// stop, disconnect or re-configure, and in a session there is no scanning and
/// no second connection.
pub proof fn law_useless_commands_are_ignored(world: World, command: ClassicCommand)
    ensures
        world.state.phase is AwaitingCommand && (command is ScanStop || command is Disconnect
            || command is UpdateProfile) ==> next(world, Event::Command(command)) == Some(
            (world, Seq::<Effect>::empty()),
        ),
        world.state.phase is InSession && (command is Scan || command is ScanStop
            || command is Connect) ==> next(world, Event::Command(command)) == Some(
            (world, Seq::<Effect>::empty()),
        ),
{
}

/// The battery is never asked of a keyboard.
pub proof fn law_keyboards_are_not_asked_for_battery(world: World, event: Event<'_>)
    requires
        next(world, event) is Some,
        done(world, event).contains(Effect::Request(battery_request())),
    ensures
        link_in(after(world, event).state.phase) is Some,
        !link_in(after(world, event).state.phase)->0.profile.for_keyboard(),
{
    let effects = done(world, event);
    let i = choose|i: int| 0 <= i < effects.len() && effects[i] == Effect::Request(battery_request());
    let link = link_in(after(world, event).state.phase);
    if link is Some && link->0.profile.for_keyboard() {
        assert(setup_effects(link->0.profile) =~= seq![Effect::Request(HidRequest::SetProtocolBoot)]);
        assert(effects[i] == Effect::Request(battery_request()));
    }
}

/// Only a keyboard's reports go to the keyboard interface, as the boot report
/// that they translate to.
pub proof fn law_key_reports_go_to_the_keyboard_interface(
    world: World,
    link: Link,
    acl: AclHeader,
    report: &[u8],
)
    requires
        world.state.phase == (Phase::ProcessingReport { link, acl }),
    ensures
        ({
            let event = Event::AclProcessed(Some(report));
            let phase = after(world, event).state.phase;
            &&& next(world, event) is Some
            &&& phase is SendingKeys <==> link.profile.for_keyboard() && boot_report(
                report@,
            ) is Some
            &&& phase matches Phase::SendingKeys { link: l, report: keys } ==> keys == to_array::<8>(
                boot_report(report@)->0,
            )
        }),
{
}

/// The report of another device than a keyboard is sent on exactly if it is a
/// touch report: once, to the mouse interface, with its report ID and all its
/// bytes as far as the USB side takes them. A battery report gives the battery
/// level. Anything else gives neither.
pub proof fn law_touch_reports_go_to_the_mouse_interface(
    world: World,
    link: Link,
    acl: AclHeader,
    report: &[u8],
)
    requires
        world.state.phase == (Phase::ProcessingReport { link, acl }),
        !link.profile.for_keyboard(),
    ensures
        ({
            let event = Event::AclProcessed(Some(report));
            let effects = done(world, event);
            let capacity = world.state.report_capacity;
            let header = touch_header_spec(report@.len() as int, capacity);
            let touch = report@.len() >= 4 && report@[0] == 0x31;
            let battery = report@.len() >= 3 && report@[0] == 0x90;
            &&& next(world, event) is Some
            &&& after(world, event).state.phase == (Phase::InSession { link })
            &&& touch ==> effects.last() == (Effect::SendTouch { header, report })
            &&& touch ==> touch_bytes(report@, header) == report@.take(
                if report@.len() <= capacity {
                    report@.len() as int
                } else {
                    capacity as int
                },
            )
            &&& forall|i: int|
                0 <= i < effects.len() && #[trigger] effects[i] is SendTouch ==> touch && i
                    == effects.len() - 1
            &&& battery ==> effects == seq![Effect::SetBatteryLevel(report@[2])]
            &&& !touch && !battery ==> effects == Seq::<Effect<'_>>::empty()
        }),
{
}

/// A key report that finds no room is offered once more, unchanged, for a
/// bounded time; either way the session then goes on.
pub proof fn law_key_reports_get_a_second_chance(world: World, link: Link, report: [u8; 8])
    ensures
        world.state.phase == (Phase::SendingKeys { link, report }) ==> ({
            let full = after(world, Event::KeysSent(false));
            let header = keyboard_header_spec();
            &&& pending_in(world.state.phase) == (Pending::TrySendKeys { header, report })
            &&& after(world, Event::KeysSent(true)).state.phase == (Phase::InSession { link })
            &&& pending_in(full.state.phase) == (Pending::SendKeys {
                header,
                report,
                millis: KEY_SEND_MILLIS,
            })
            &&& after(full, Event::KeysSent(true)).state.phase == (Phase::InSession { link })
            &&& after(full, Event::KeysSent(false)).state.phase == (Phase::InSession { link })
        }),
{
}

/// The user is told that the device is connected exactly when a session begins,
/// and every session that ends is cleaned up after: the device is marked as
/// disconnected, its battery level withdrawn and the user told, and after a pause
/// the task connects again.
pub proof fn law_sessions_begin_and_end_cleanly(world: World, event: Event<'_>)
    requires
        next(world, event) is Some,
    ensures
        done(world, event).contains(Effect::NotifyState(ConnectionState::Connected)) <==> !in_session(
            world.state.phase,
        ) && in_session(after(world, event).state.phase),
        in_session(world.state.phase) && !in_session(after(world, event).state.phase) ==> done(
            world,
            event,
        ) == end_effects() && after(world, event).state.phase == (Phase::RestartPause {
            millis: RECONNECT_MILLIS,
        }),
{
    let effects = done(world, event);
    let told = Effect::NotifyState(ConnectionState::Connected);
    if !in_session(world.state.phase) && in_session(after(world, event).state.phase) {
        assert(effects[effects.len() - 2] == told);
    }
}

/// A session ends only when it is told to, when the device is forgotten, or when
/// the link is gone.
pub proof fn law_what_ends_a_session(world: World, event: Event<'_>)
    requires
        next(world, event) is Some,
        in_session(world.state.phase),
        !in_session(after(world, event).state.phase),
    ensures
        world.state.phase is InSession,
        event == Event::Command(ClassicCommand::Disconnect) || event == Event::Command(
            ClassicCommand::ClearBond { address: link_in(world.state.phase)->0.target },
        ) || (event matches Event::Hci { kind, data } && kind is DisconnectionComplete),
{
}

/// A connection is tried five times in all, and then given a long pause.
pub proof fn law_connection_is_retried(world: World, target: [u8; 6], attempt: u8)
    requires
        world.state.phase == (Phase::Connecting { target, attempt }),
        state_ok(world.state),
    ensures
        ({
            let failed = after(world, Event::ConnectFailed);
            if attempt < MAX_CONNECT_ATTEMPTS {
                after(failed, Event::Elapsed).state.phase == (Phase::Connecting {
                    target,
                    attempt: (attempt + 1) as u8,
                })
            } else {
                failed.state.phase == (Phase::RestartPause { millis: CONNECT_GIVE_UP_MILLIS })
            }
        }),
{
}

/// Waiting for the HID channels comes to an end: every read is counted, and
/// there are only so many.
pub proof fn law_channel_setup_is_bounded(world: World, event: Event<'_>, link: Link, reads: u16)
    requires
        next(world, event) is Some,
        state_ok(world.state),
        world.state.phase == (Phase::ReadingSetup { link, reads }) || world.state.phase == (
        Phase::SetupPause { link, reads }) || (world.state.phase matches Phase::ProcessingSetup {
            link: l,
            reads: n,
            acl,
        } && l == link && n == reads),
    ensures
        match after(world, event).state.phase {
            Phase::PollingChannels { link: l, reads: n } => l == link && n == reads + 1 && n
                <= MAX_SETUP_READS,
            Phase::ProcessingSetup { link: l, reads: n, acl } => world.state.phase is ReadingSetup
                && l == link && n == reads,
            Phase::SetupPause { link: l, reads: n } => world.state.phase is ReadingSetup && l
                == link && n == reads,
            Phase::RestartPause { millis } => reads == MAX_SETUP_READS,
            _ => false,
        },
{
}

/// Every connection begins by reading the bonds again on reset resources.
pub proof fn law_bonds_are_read_again(world: World, event: Event<'_>)
    requires
        next(world, event) is Some,
        after(world, event).state.phase is ResolvingTarget,
    ensures
        done(world, event) == seq![Effect::ResetHost],
        pending_in(after(world, event).state.phase) is LoadBonds,
{
}

/// A command that comes during an Inquiry is put back into the queue, unless it
/// stops the Inquiry, and nothing else happens.
pub proof fn law_commands_are_put_back_during_an_inquiry(world: World, command: ClassicCommand)
    requires
        world.state.phase is Inquiring,
        !(command is ScanStop),
    ensures
        next(world, Event::Command(command)) == Some((world, seq![Effect::Requeue(command)])),
{
}

/// An Inquiry ends when the controller says so or the user stops it, and only
/// then: everything else goes on with it.
pub proof fn law_what_ends_an_inquiry(world: World, event: Event<'_>)
    requires
        next(world, event) is Some,
        world.state.phase is Inquiring,
    ensures
        after(world, event).state.phase is AwaitingCommand <==> event == Event::Command(
            ClassicCommand::ScanStop,
        ) || (event matches Event::Hci { kind, data } && kind is InquiryComplete),
        event is ReadFailed ==> after(after(world, event), Event::Elapsed).state.phase is Inquiring,
{
}

/// The user hears of every Inquiry when it starts and once more when it ends:
/// that it failed, was cancelled or is complete.
pub proof fn law_inquiries_are_announced(world: World, event: Event<'_>)
    requires
        next(world, event) is Some,
    ensures
        after(world, event).state.phase is StartingInquiry ==> done(world, event) == seq![
            Effect::Announce(Notice::InquiryStarting),
        ],
        world.state.phase is StartingInquiry || world.state.phase is Inquiring ==> (after(
            world,
            event,
        ).state.phase is AwaitingCommand <==> exists|notice: Notice|
            !(notice is InquiryStarting) && #[trigger] done(world, event).contains(
                Effect::Announce(notice),
            )),
        world.state.phase is StartingInquiry && after(world, event).state.phase is AwaitingCommand
            ==> done(world, event) == seq![Effect::Announce(Notice::InquiryFailed)],
        world.state.phase is Inquiring && event is Command && after(
            world,
            event,
        ).state.phase is AwaitingCommand ==> done(world, event) == seq![
            Effect::CancelInquiry,
            Effect::Announce(Notice::InquiryCancelled),
        ],
        world.state.phase is Inquiring && event is Hci && after(
            world,
            event,
        ).state.phase is AwaitingCommand ==> done(world, event) == seq![
            Effect::Announce(Notice::InquiryComplete),
        ],
{
    let effects = done(world, event);
    if (world.state.phase is StartingInquiry || world.state.phase is Inquiring) && after(
        world,
        event,
    ).state.phase is AwaitingCommand {
        let last = effects[effects.len() - 1];
        assert(effects.contains(last));
        assert(last matches Effect::Announce(notice) && !(notice is InquiryStarting));
    }
}

/// A read error is passed over: after a pause the task is where it was, and
/// nothing else has changed.
pub proof fn law_read_errors_are_passed_over(world: World)
    requires
        world.state.phase is Inquiring || world.state.phase is InSession,
    ensures
        next(world, Event::ReadFailed) is Some,
        done(world, Event::ReadFailed) == Seq::<Effect>::empty(),
        next(after(world, Event::ReadFailed), Event::Elapsed) == Some(
            (world, Seq::<Effect>::empty()),
        ),
{
}

/// The run of the task over a row of events, with all that it does.
pub open spec fn run<'a>(world: World, events: Seq<Event<'a>>) -> Transition<'a>
    decreases events.len(),
{
    if events.len() == 0 {
        Some((world, Seq::empty()))
    } else {
        match run(world, events.drop_last()) {
            Some((before, effects)) => match next(before, events.last()) {
                Some((now, more)) => Some((now, effects + more)),
                None => None,
            },
            None => None,
        }
    }
}

/// The world at the end of a run.
pub open spec fn reached(world: World, events: Seq<Event<'_>>) -> World {
    (run(world, events)->0).0
}

/// What was done in a run, in order.
pub open spec fn all_done<'a>(world: World, events: Seq<Event<'a>>) -> Seq<Effect<'a>> {
    (run(world, events)->0).1
}

/// The devices that an event shows: those of an Inquiry result.
pub open spec fn shown_by(world: World, event: Event<'_>) -> Seq<FoundDevice> {
    match (world.state.phase, event) {
        (Phase::Inquiring, Event::Hci { kind, data }) => found_devices(kind, data@),
        _ => Seq::empty(),
    }
}

/// The devices that a run shows, in order.
pub open spec fn shown(world: World, events: Seq<Event<'_>>) -> Seq<FoundDevice>
    decreases events.len(),
{
    if events.len() == 0 {
        Seq::empty()
    } else {
        shown(world, events.drop_last()) + shown_by(
            reached(world, events.drop_last()),
            events.last(),
        )
    }
}

/// The Class of Device that a device was last shown with, or what was known of it
/// before if it was not shown.
pub open spec fn last_shown_cod(
    before: Option<[u8; 3]>,
    found: Seq<FoundDevice>,
    addr: [u8; 6],
) -> Option<[u8; 3]>
    decreases found.len(),
{
    if found.len() == 0 {
        before
    } else if found.last().result.address == addr {
        Some(found.last().cod)
    } else {
        last_shown_cod(before, found.drop_last(), addr)
    }
}

/// All known and all found devices are among these addresses.
pub open spec fn all_among(
    addrs: Set<[u8; 6]>,
    devices: Seq<CachedDevice>,
    found: Seq<FoundDevice>,
) -> bool {
    &&& forall|i: int| 0 <= i < devices.len() ==> addrs.contains((#[trigger] devices[i]).addr)
    &&& forall|i: int| 0 <= i < found.len() ==> addrs.contains((#[trigger] found[i]).result.address)
}

/// No more devices are known and found than the cache has room for.
pub open spec fn few_devices(devices: Seq<CachedDevice>, found: Seq<FoundDevice>) -> bool {
    exists|addrs: Set<[u8; 6]>|
        addrs.finite() && addrs.len() <= MAX_CACHED_DEVICES && #[trigger] all_among(
            addrs,
            devices,
            found,
        )
}

proof fn lemma_noted_in_turn(devices: Seq<CachedDevice>, a: Seq<FoundDevice>, b: Seq<FoundDevice>)
    ensures
        all_noted(devices, a + b) == all_noted(all_noted(devices, a), b),
    decreases b.len(),
{
    if b.len() == 0 {
        assert(a + b == a);
    } else {
        lemma_noted_in_turn(devices, a, b.drop_last());
        assert((a + b).drop_last() == a + b.drop_last());
    }
}

/// What a run leaves in the cache is what its Inquiry results showed, one after
/// the other.
pub proof fn law_cache_follows_what_is_shown(world: World, events: Seq<Event<'_>>)
    requires
        run(world, events) is Some,
    ensures
        reached(world, events).devices == all_noted(world.devices, shown(world, events)),
    decreases events.len(),
{
    if events.len() > 0 {
        let before = reached(world, events.drop_last());
        law_cache_follows_what_is_shown(world, events.drop_last());
        law_only_inquiry_changes_the_cache(before, events.last());
        lemma_noted_in_turn(
            world.devices,
            shown(world, events.drop_last()),
            shown_by(before, events.last()),
        );
    }
}

proof fn lemma_full_cache_knows_all(devices: Seq<CachedDevice>, addrs: Set<[u8; 6]>, addr: [u8; 6])
    requires
        no_duplicates(devices),
        devices.len() == MAX_CACHED_DEVICES,
        addrs.finite(),
        addrs.len() <= MAX_CACHED_DEVICES,
        all_among(addrs, devices, Seq::empty()),
        addrs.contains(addr),
    ensures
        position(devices, addr) is Some,
{
    let known = devices.map_values(|device: CachedDevice| device.addr);
    assert(known.no_duplicates()) by {
        assert forall|i: int, j: int| 0 <= i < known.len() && 0 <= j < known.len() && i
            != j implies known[i] != known[j] by {
            assert(devices[i].addr == known[i] && devices[j].addr == known[j]);
        }
    }
    known.unique_seq_to_set();
    assert(known.to_set().subset_of(addrs)) by {
        assert forall|a: [u8; 6]| known.to_set().contains(a) implies addrs.contains(a) by {
            let i = choose|i: int| 0 <= i < known.len() && known[i] == a;
            assert(addrs.contains(devices[i].addr));
        }
    }
    vstd::set_lib::lemma_len_subset(known.to_set(), addrs);
    vstd::set_lib::lemma_subset_equality(known.to_set(), addrs);
    assert(known.to_set().contains(addr));
    let i = choose|i: int| 0 <= i < known.len() && known[i] == addr;
    assert(devices[i].addr == addr);
    lemma_only_position(devices, addr, i);
}

proof fn lemma_nothing_is_pushed_out(
    devices: Seq<CachedDevice>,
    found: Seq<FoundDevice>,
    addrs: Set<[u8; 6]>,
    addr: [u8; 6],
)
    requires
        devices.len() <= MAX_CACHED_DEVICES,
        no_duplicates(devices),
        addrs.finite(),
        addrs.len() <= MAX_CACHED_DEVICES,
        all_among(addrs, devices, found),
    ensures
        all_among(addrs, all_noted(devices, found), Seq::empty()),
        known_cod(all_noted(devices, found), addr) == last_shown_cod(
            known_cod(devices, addr),
            found,
            addr,
        ),
    decreases found.len(),
{
    if found.len() > 0 {
        let last = found.last();
        let before = all_noted(devices, found.drop_last());
        let name = Some((last.result.name, last.result.name_len));
        lemma_nothing_is_pushed_out(devices, found.drop_last(), addrs, addr);
        lemma_all_noted_well_formed(devices, found.drop_last());
        law_found_device_is_known(before, last);
        assert(addrs.contains(found[found.len() - 1].result.address));
        if before.len() == MAX_CACHED_DEVICES {
            lemma_full_cache_knows_all(before, addrs, last.result.address);
        }
        if last.result.address != addr {
            law_other_devices_are_kept(before, last.result.address, name, Some(last.cod@), addr);
        }
        if position(before, last.result.address) is Some {
            assert(is_first(
                before,
                last.result.address,
                position(before, last.result.address)->0,
            ));
        }
    }
}

/// The cache never holds an outdated Class of Device: what it knows of a device
/// is what the device was last shown with. As long as no more devices are known
/// and found than there is room for, it knows that of every device.
pub proof fn law_cache_holds_the_last_shown(
    devices: Seq<CachedDevice>,
    found: Seq<FoundDevice>,
    addr: [u8; 6],
)
    requires
        devices.len() <= MAX_CACHED_DEVICES,
        no_duplicates(devices),
    ensures
        known_cod(all_noted(devices, found), addr) is None || known_cod(
            all_noted(devices, found),
            addr,
        ) == last_shown_cod(known_cod(devices, addr), found, addr),
        few_devices(devices, found) ==> known_cod(all_noted(devices, found), addr)
            == last_shown_cod(known_cod(devices, addr), found, addr),
    decreases found.len(),
{
    if found.len() > 0 {
        let last = found.last();
        let before = all_noted(devices, found.drop_last());
        let name = Some((last.result.name, last.result.name_len));
        law_cache_holds_the_last_shown(devices, found.drop_last(), addr);
        lemma_all_noted_well_formed(devices, found.drop_last());
        law_found_device_is_known(before, last);
        if last.result.address != addr {
            law_other_devices_are_kept(before, last.result.address, name, Some(last.cod@), addr);
        }
    }
    if few_devices(devices, found) {
        let addrs = choose|addrs: Set<[u8; 6]>|
            addrs.finite() && addrs.len() <= MAX_CACHED_DEVICES && #[trigger] all_among(
                addrs,
                devices,
                found,
            );
        lemma_nothing_is_pushed_out(devices, found, addrs, addr);
    }
}

/// The Class of Device that a device was last shown with is one that it was shown
/// with, or else the one known before.
pub proof fn law_last_shown_was_shown(
    before: Option<[u8; 3]>,
    found: Seq<FoundDevice>,
    addr: [u8; 6],
)
    ensures
        last_shown_cod(before, found, addr) == before || exists|i: int|
            0 <= i < found.len() && (#[trigger] found[i]).result.address == addr && last_shown_cod(
                before,
                found,
                addr,
            ) == Some(found[i].cod),
    decreases found.len(),
{
    if found.len() > 0 {
        if found.last().result.address == addr {
            assert(found[found.len() - 1].result.address == addr);
        } else {
            law_last_shown_was_shown(before, found.drop_last(), addr);
            if last_shown_cod(before, found, addr) != before {
                let i = choose|i: int|
                    0 <= i < found.drop_last().len() && (#[trigger] found.drop_last()[i]).result.address
                        == addr && last_shown_cod(before, found.drop_last(), addr) == Some(
                        found.drop_last()[i].cod,
                    );
                assert(found[i].result.address == addr);
            }
        }
    }
}

/// A keyboard works from its first connection without being told what it is. In
/// any run that leads to a connection, with any Inquiry results on the way, a
/// device without a bond is driven as a keyboard if it is one by the Class of
/// Device that it was last shown with, as long as the cache has not lost it. It
/// cannot have lost it if no more devices are known and shown than there is room
/// for.
pub proof fn law_keyboard_works_from_its_first_connection(
    world: World,
    events: Seq<Event<'_>>,
    target: [u8; 6],
    handle: u16,
    bonds: &[StoredClassicBond],
)
    requires
        world.devices.len() <= MAX_CACHED_DEVICES,
        no_duplicates(world.devices),
        run(world, events) is Some,
        last_shown_cod(
            known_cod(world.devices, target),
            shown(world, events),
            target,
        ) matches Some(cod) && is_keyboard(cod@),
        known_cod(reached(world, events).devices, target) is Some || few_devices(
            world.devices,
            shown(world, events),
        ),
        reached(world, events).state.phase == (Phase::ChoosingProfile { target, handle }),
        bond_of(bonds@, target) is None,
    ensures
        ({
            let connected = reached(world, events);
            let chosen = after(connected, Event::BondsLoaded(bonds));
            &&& next(connected, Event::BondsLoaded(bonds)) is Some
            &&& link_in(chosen.state.phase) == Some(
                Link { target, handle, profile: DeviceProfile::Keyboard },
            )
        }),
{
    law_cache_follows_what_is_shown(world, events);
    law_cache_holds_the_last_shown(world.devices, shown(world, events), target);
    law_stored_bond_wins(reached(world, events), target, handle, bonds);
}

/// The same, by all that was ever shown: a device without a bond that the cache
/// knows is driven as a keyboard if every Class of Device known or shown of it is
/// a keyboard's.
pub proof fn law_keyboard_shown_as_such_is_driven_as_one(
    world: World,
    events: Seq<Event<'_>>,
    target: [u8; 6],
    handle: u16,
    bonds: &[StoredClassicBond],
)
    requires
        world.devices.len() <= MAX_CACHED_DEVICES,
        no_duplicates(world.devices),
        run(world, events) is Some,
        known_cod(world.devices, target) matches Some(cod) ==> is_keyboard(cod@),
        forall|i: int|
            0 <= i < shown(world, events).len() && (#[trigger] shown(
                world,
                events,
            )[i]).result.address == target ==> is_keyboard(shown(world, events)[i].cod@),
        known_cod(reached(world, events).devices, target) is Some,
        reached(world, events).state.phase == (Phase::ChoosingProfile { target, handle }),
        bond_of(bonds@, target) is None,
    ensures
        ({
            let connected = reached(world, events);
            let chosen = after(connected, Event::BondsLoaded(bonds));
            &&& next(connected, Event::BondsLoaded(bonds)) is Some
            &&& link_in(chosen.state.phase) == Some(
                Link { target, handle, profile: DeviceProfile::Keyboard },
            )
        }),
{
    law_cache_follows_what_is_shown(world, events);
    law_cache_holds_the_last_shown(world.devices, shown(world, events), target);
    law_last_shown_was_shown(known_cod(world.devices, target), shown(world, events), target);
    law_keyboard_works_from_its_first_connection(world, events, target, handle, bonds);
}

/// In any run from power-up, the event mask and the Inquiry format are set
/// before anything else, and the BLE connection manager is released once.
pub proof fn law_init_is_signalled_once(world: World, events: Seq<Event<'_>>)
    requires
        world.state.phase is Settling,
        events.len() > 0,
        run(world, events) is Some,
    ensures
        all_done(world, events).len() >= 4,
        all_done(world, events).take(4) == startup_effects(),
        forall|i: int|
            4 <= i < all_done(world, events).len() ==> #[trigger] all_done(world, events)[i]
                != Effect::SignalInitDone,
        !(reached(world, events).state.phase is Settling),
    decreases events.len(),
{
    let (before, effects) = run(world, events.drop_last())->0;
    let more = done(before, events.last());
    law_init_is_signalled_by_the_first_step(before, events.last());
    if events.len() == 1 {
        assert(events.drop_last() == Seq::<Event<'_>>::empty());
        assert(effects + more == more);
        assert(more.take(4) == more);
    } else {
        law_init_is_signalled_once(world, events.drop_last());
        assert((effects + more).take(4) == effects.take(4));
        assert forall|i: int| 4 <= i < (effects + more).len() implies #[trigger] (effects + more)[i]
            != Effect::SignalInitDone by {
            if i >= effects.len() {
                assert(more.contains(more[i - effects.len()]));
            }
        }
    }
}

/// In any run, the limits hold, the link keys stay within their room, and the
/// cache within its size, with one entry for each device.
pub proof fn law_every_run_keeps_the_invariants(world: World, events: Seq<Event<'_>>)
    requires
        state_ok(world.state),
        world.devices.len() <= MAX_CACHED_DEVICES,
        no_duplicates(world.devices),
        world.keys.len() <= MAX_LINK_KEYS,
        run(world, events) is Some,
    ensures
        state_ok(reached(world, events).state),
        reached(world, events).devices.len() <= MAX_CACHED_DEVICES,
        no_duplicates(reached(world, events).devices),
        reached(world, events).keys.len() <= MAX_LINK_KEYS,
    decreases events.len(),
{
    if events.len() > 0 {
        law_every_run_keeps_the_invariants(world, events.drop_last());
        let before = reached(world, events.drop_last());
        let event = events.last();
        law_limits_hold(before, event);
        law_only_inquiry_changes_the_cache(before, event);
        law_only_bonds_and_commands_change_the_keys(before, event);
        if before.state.phase is Inquiring {
            if let Event::Hci { kind, data } = event {
                lemma_all_noted_well_formed(before.devices, found_devices(kind, data@));
            }
        }
    }
}

proof fn lemma_all_noted_well_formed(devices: Seq<CachedDevice>, found: Seq<FoundDevice>)
    requires
        devices.len() <= MAX_CACHED_DEVICES,
        no_duplicates(devices),
    ensures
        all_noted(devices, found).len() <= MAX_CACHED_DEVICES,
        no_duplicates(all_noted(devices, found)),
    decreases found.len(),
{
    if found.len() > 0 {
        lemma_all_noted_well_formed(devices, found.drop_last());
        law_found_device_is_known(all_noted(devices, found.drop_last()), found.last());
    }
}

} // verus!

//! What holds of the flows as long as the stores hand out what was written to
//! them: an entry that has expired or was evicted is found by no lookup, and
//! the flow that needs it then ends in `UserNotFound`.

use crate::applications::finalize::refusal;
use crate::applications::pre_recovery::issue_step;
use crate::applications::registration::{
    availability, created_entry, otp_outcome, resend_step, start_step, verify_step,
};
use crate::applications::record::{DropTypeView, OidcInfoView, RecordView, RegistrantEntryView};
use crate::applications::update_email::{
    EmailUpdateAction, EmailUpdateEvent, confirmation, email_update_step, updating_entry,
};
use crate::applications::{
    created_by, pointer_of, purge_step, retire_step, retired, ApplicationsView,
};
use crate::error::AppError;
use vstd::prelude::*;

verus! {

/// An email starts a flow exactly when it is available: where the ledger does
/// not hold it and the persistent store does not know it, the entry is
/// written; otherwise the flow fails with `EmailTaken` and nothing changes.
pub proof fn law_available_email_starts(
    before: ApplicationsView,
    email: Seq<char>,
    entry: RegistrantEntryView,
    present: bool,
    registered: bool,
)
    ensures
        availability(present, registered) is Ok <==> !present && !registered,
        availability(present, registered) is Ok ==> start_step(
            before,
            email,
            entry,
            present,
            registered,
        ) == (before.with_registrant(email, entry), Ok::<(), AppError>(())),
        availability(present, registered) is Err ==> start_step(
            before,
            email,
            entry,
            present,
            registered,
        ) == (before, Err::<(), AppError>(AppError::EmailTaken)),
        start_step(before, email, entry, present, registered).0.registrant(email) == if present
            || registered {
            before.registrant(email)
        } else {
            Some(entry)
        },
{
}

/// After a registration was started with a one-time password, that password
/// verifies the email and every other one is an `InvalidOTP`; verifying
/// leaves the entry in place.
pub proof fn law_otp_round_trip(
    before: ApplicationsView,
    socket: Seq<char>,
    name: Seq<char>,
    email: Seq<char>,
    otp: Seq<char>,
    other: Seq<char>,
)
    requires
        other != otp,
    ensures
        ({
            let started = start_step(before, email, created_entry(socket, name, otp), false, false).0;
            let found = started.registrant(email);
            &&& found == Some(created_entry(socket, name, otp))
            &&& verify_step(started, email, otp, found).1 == Ok::<(), AppError>(())
            &&& verify_step(started, email, otp, found).0.registrant(email) == found
            &&& verify_step(started, email, other, found) == (
                started,
                Err::<(), AppError>(AppError::InvalidOTP),
            )
        }),
{
}

/// After a new one-time password was issued for a pending registration, the
/// new one verifies and no other does, the earlier one included.
pub proof fn law_resend_overwrites(
    before: ApplicationsView,
    email: Seq<char>,
    entry: RegistrantEntryView,
    fresh: Seq<char>,
    tried: Seq<char>,
)
    ensures
        ({
            let resent = resend_step(before, email, fresh, Some(entry)).0;
            let found = resent.registrant(email);
            &&& found is Some
            &&& otp_outcome(found, tried) == if tried == fresh {
                Ok::<(), AppError>(())
            } else {
                Err::<(), AppError>(AppError::InvalidOTP)
            }
        }),
{
}

/// Of two recovery codes issued one after the other for an email, the second
/// leads to the email and the first to nothing. The codes differ from each
/// other, and the first differs from the email, since codes and emails share
/// a store.
pub proof fn law_single_recovery_code(
    before: ApplicationsView,
    email: Seq<char>,
    first: Seq<char>,
    second: Seq<char>,
    earlier: Option<Seq<char>>,
)
    requires
        first != second,
        first != email,
    ensures
        ({
            let once = issue_step(before, email, first, earlier);
            let twice = issue_step(once, email, second, once.recovery(email));
            &&& once.recovery(email) == Some(first)
            &&& twice.recovery(first) is None
            &&& twice.recovery(second) == Some(email)
        }),
{
}

/// When the connection that started a registration closes, the email is no
/// longer pending.
pub proof fn law_connection_close_purges(
    before: ApplicationsView,
    socket: Seq<char>,
    name: Seq<char>,
    email: Seq<char>,
    otp: Seq<char>,
)
    ensures
        ({
            let started = start_step(before, email, created_entry(socket, name, otp), false, false).0;
            let purged = purge_step(started, socket, created_by(started.socket_index, socket));
            &&& !purged.registrants.contains_key(email)
            &&& !purged.socket_index.contains_key(socket)
        }),
{
}

/// An email change is committed only with the one-time password and the old
/// email that it was asked for with: a wrong password is an `InvalidOTP`, a
/// wrong old email a `BadReq`. Once it is committed the entry is gone, and a
/// second confirmation finds nothing.
pub proof fn law_email_update_cross_check(
    before: ApplicationsView,
    socket: Seq<char>,
    old_email: Seq<char>,
    new_email: Seq<char>,
    otp: Seq<char>,
    wrong: Seq<char>,
)
    ensures
        ({
            let asked = start_step(
                before,
                new_email,
                updating_entry(socket, old_email, otp),
                false,
                false,
            ).0;
            let found = asked.registrant(new_email);
            let committed = email_update_step(
                asked,
                old_email,
                new_email,
                otp,
                EmailUpdateEvent::Persisted,
                found,
                pointer_of(asked, new_email),
            ).0;
            &&& confirmation(found, old_email, otp) == Ok::<(), AppError>(())
            &&& wrong != otp ==> confirmation(found, old_email, wrong) == Err::<(), AppError>(
                AppError::InvalidOTP,
            )
            &&& wrong != old_email ==> confirmation(found, wrong, otp) == Err::<(), AppError>(
                AppError::BadReq("New email didn't match"),
            )
            &&& committed.registrant(new_email) is None
            &&& email_update_step(
                committed,
                old_email,
                new_email,
                otp,
                EmailUpdateEvent::Requested,
                committed.registrant(new_email),
                pointer_of(committed, new_email),
            ).1 == EmailUpdateAction::Reply(Err(AppError::UserNotFound))
        }),
{
}

/// Once an account was created from a pending registration, the entry is
/// gone: a second request for a username finds no user, whether the
/// persistent store knows the username by then or not.
pub proof fn law_finalize_once(
    before: ApplicationsView,
    after: ApplicationsView,
    email: Seq<char>,
    username_taken: bool,
)
    requires
        retired(before, after, email),
    ensures
        refusal(after.registrant(email), username_taken) == Some(AppError::UserNotFound),
{
}

/// A registration that is retired takes its own pointer along and no other:
/// where one endpoint started a registration for one email and then for
/// another, retiring the first leaves the pointer to the second, and the
/// close of the connection still purges the second.
pub proof fn law_retiring_keeps_the_later_pointer(
    before: ApplicationsView,
    socket: Seq<char>,
    first: Seq<char>,
    second: Seq<char>,
    first_entry: RegistrantEntryView,
    second_entry: RegistrantEntryView,
)
    requires
        first != second,
        first_entry.socket_addr == socket,
        second_entry.socket_addr == socket,
    ensures
        ({
            let started = before.with_registrant(first, first_entry).with_registrant(
                second,
                second_entry,
            );
            let retired = retire_step(
                started,
                first,
                started.registrant(first),
                pointer_of(started, first),
            );
            let closed = purge_step(retired, socket, created_by(retired.socket_index, socket));
            &&& started.registrant(first) == Some(first_entry)
            &&& !retired.registrants.contains_key(first)
            &&& created_by(retired.socket_index, socket) == Some(DropTypeView::Registrant(second))
            &&& retired.registrant(second) == Some(second_entry)
            &&& !closed.registrants.contains_key(second)
        }),
{
}

/// A registration that is retired while the index still points to it takes
/// the pointer along: the endpoint is in the index no more.
pub proof fn law_retiring_takes_its_pointer(
    before: ApplicationsView,
    email: Seq<char>,
    entry: RegistrantEntryView,
)
    ensures
        ({
            let started = before.with_registrant(email, entry);
            let retired = retire_step(
                started,
                email,
                started.registrant(email),
                pointer_of(started, email),
            );
            &&& !retired.registrants.contains_key(email)
            &&& !retired.socket_index.contains_key(entry.socket_addr)
        }),
{
}

/// The ledger holds one entry per email at most: a second registration
/// under the same email replaces the first, and the second is what remains.
pub proof fn law_last_writer_wins(
    before: ApplicationsView,
    email: Seq<char>,
    first: RegistrantEntryView,
    second: RegistrantEntryView,
)
    ensures
        before.with_registrant(email, first).with_registrant(email, second).registrant(email)
            == Some(second),
        before.with_registrant(email, first).with_registrant(email, second).registrants
            == before.with_registrant(email, second).registrants,
{
    assert(before.registrants.insert(email, RecordView::Registrant(first)).insert(
        email,
        RecordView::Registrant(second),
    ) =~= before.registrants.insert(email, RecordView::Registrant(second)));
}

/// A socket entry that points to a registration which is gone already is
/// purged without touching the ledger.
pub proof fn law_dangling_purge_changes_no_ledger(
    before: ApplicationsView,
    socket: Seq<char>,
    email: Seq<char>,
)
    requires
        !before.registrants.contains_key(email),
    ensures
        purge_step(before, socket, Some(DropTypeView::Registrant(email))).registrants
            == before.registrants,
        purge_step(before, socket, None).registrants == before.registrants,
{
    assert(before.registrants.remove(email) =~= before.registrants);
}

/// An authorization attempt is found under its CSRF state until it is
/// removed, and never after.
pub proof fn law_attempt_until_removed(before: ApplicationsView, state: Seq<char>, info: OidcInfoView)
    ensures
        before.with_attempt(state, info).attempt(state) == Some(info),
        before.with_attempt(state, info).without_attempt(state).attempt(state) is None,
{
}

/// The stores stay sorted, each with records of its own kind, through
/// everything that the flows do to them.
pub proof fn law_stores_stay_sorted(
    before: ApplicationsView,
    key: Seq<char>,
    other: Seq<char>,
    entry: RegistrantEntryView,
    info: OidcInfoView,
)
    requires
        before.sorted(),
    ensures
        before.with_registrant(key, entry).sorted(),
        before.without_registrant(key, other).sorted(),
        before.without_email(key).sorted(),
        before.without_socket(key).sorted(),
        before.with_attempt(key, info).sorted(),
        before.without_attempt(key).sorted(),
        before.with_recovery(key, other).sorted(),
        before.without_recovery(key).sorted(),
{
}

} // verus!

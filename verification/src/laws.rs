//! What holds of the ledger over whole sequences of requests, proved from the
//! specifications of the single operations.

use crate::accounts::{withdraw_spec, Accounts};
use crate::contract::{execute_spec, has_room};
use crate::engine::{
    begin_rental_spec, counter_has_room, empty_ledger, end_rental_spec, LedgerView,
};
use crate::error::ErrorView;
use crate::fleet::Fleet;
use crate::msg::ExecuteMsgView;
use crate::rentals::{lemma_rent_cost_bounds, rent_cost, Rentals};
use crate::state::Status;
use vstd::prelude::*;

verus! {

/// A request together with the address that sent it.
pub struct Call {
    pub sender: Seq<char>,
    pub msg: ExecuteMsgView,
}

/// The ledger after one request, whether it was carried out or refused.
pub open spec fn step(s: LedgerView, call: Call) -> LedgerView {
    execute_spec(s, call.sender, call.msg).0
}

/// Whether the rent counter leaves room for the request: a rental that is
/// made needs an id that is still to be had.
pub open spec fn in_range(s: LedgerView, call: Call) -> bool {
    has_room(s, call.sender, call.msg)
}

/// The ledger after the requests `calls`, taken in order.
pub open spec fn run(s: LedgerView, calls: Seq<Call>) -> LedgerView
    decreases calls.len(),
{
    if calls.len() == 0 {
        s
    } else {
        run(step(s, calls[0]), calls.drop_first())
    }
}

/// Whether each request of `calls`, taken in order from `s`, is in range.
pub open spec fn admissible(s: LedgerView, calls: Seq<Call>) -> bool
    decreases calls.len(),
{
    calls.len() == 0 || (in_range(s, calls[0]) && admissible(
        step(s, calls[0]),
        calls.drop_first(),
    ))
}

/// Whether the rental `rent_id` is open: it is on record, no later rental
/// is on record for its car, and that car is in use. The ledger marks no
/// record as closed; a rental counts as closed once its car was released or
/// rented anew.
pub open spec fn is_open(cars: Fleet, rentals: Rentals, rent_id: u64) -> bool {
    &&& rentals.records.contains_key(rent_id)
    &&& cars.contains_key(rentals.records[rent_id].car_id)
    &&& cars[rentals.records[rent_id].car_id].car_status == Status::InUse
    &&& forall|later: u64|
        rentals.records.contains_key(later) && (#[trigger] rentals.records[later]).car_id
            == rentals.records[rent_id].car_id ==> later <= rent_id
}

/// Whether `rent_id` is an open rental of the car `car_id`.
pub open spec fn is_open_for(cars: Fleet, rentals: Rentals, car_id: u64, rent_id: u64) -> bool {
    is_open(cars, rentals, rent_id) && rentals.records[rent_id].car_id == car_id
}

/// Whether the car `car_id` has one open rental and no second one.
pub open spec fn has_one_open_rental(cars: Fleet, rentals: Rentals, car_id: u64) -> bool {
    exists|rent_id: u64|
        {
            &&& #[trigger] is_open_for(cars, rentals, car_id, rent_id)
            &&& forall|other: u64| #[trigger]
                is_open_for(cars, rentals, car_id, other) ==> other == rent_id
        }
}

/// Whether availability and rentals agree: a car is in use exactly where it
/// has one open rental and no second one.
pub open spec fn fleet_matches_rentals(s: LedgerView) -> bool {
    forall|car_id: u64| #[trigger]
        s.cars.contains_key(car_id) ==> (s.cars[car_id].car_status == Status::InUse
            <==> has_one_open_rental(s.cars, s.rentals, car_id))
}

/// Whether every id on record was issued by the counter: it lies between 1
/// and the id issued last.
pub open spec fn ids_issued(rentals: Rentals) -> bool {
    forall|rent_id: u64| #[trigger]
        rentals.records.contains_key(rent_id) ==> 1 <= rent_id <= rentals.sequence
}

/// What holds of every ledger that the requests can reach from an empty
/// one.
pub open spec fn consistent(s: LedgerView) -> bool {
    &&& ids_issued(s.rentals)
    &&& fleet_matches_rentals(s)
}

/// The empty ledger is consistent.
pub proof fn lemma_empty_is_consistent()
    ensures
        consistent(empty_ledger()),
{
}

proof fn lemma_same_fleet_and_rentals(s: LedgerView, t: LedgerView)
    requires
        consistent(s),
        t.cars == s.cars,
        t.rentals == s.rentals,
    ensures
        consistent(t),
{
}

proof fn lemma_add_car_preserves(s: LedgerView, t: LedgerView, id: u64)
    requires
        consistent(s),
        !s.cars.contains_key(id),
        t.cars.contains_key(id),
        t.cars[id].car_status == Status::Available,
        t.cars == s.cars.insert(id, t.cars[id]),
        t.rentals == s.rentals,
    ensures
        consistent(t),
{
    assert forall|car_id: u64| #[trigger] t.cars.contains_key(car_id) implies (
    t.cars[car_id].car_status == Status::InUse <==> has_one_open_rental(
        t.cars,
        t.rentals,
        car_id,
    )) by {
        if car_id == id {
            assert(forall|r: u64| !is_open_for(t.cars, t.rentals, car_id, r));
        } else {
            lemma_other_car_untouched(s, t, id, car_id);
        }
    }
}

/// A change to the car `changed` that adds at most rentals of that car
/// leaves the open rentals of every other car as they were.
proof fn lemma_other_car_untouched(s: LedgerView, t: LedgerView, changed: u64, car_id: u64)
    requires
        car_id != changed,
        s.cars.contains_key(car_id),
        t.cars.contains_key(car_id),
        t.cars[car_id] == s.cars[car_id],
        forall|r: u64| #[trigger]
            s.rentals.records.contains_key(r) ==> t.rentals.records.contains_key(r)
                && t.rentals.records[r] == s.rentals.records[r],
        forall|r: u64| #[trigger]
            t.rentals.records.contains_key(r) ==> s.rentals.records.contains_key(r)
                || t.rentals.records[r].car_id == changed,
    ensures
        has_one_open_rental(t.cars, t.rentals, car_id) <==> has_one_open_rental(
            s.cars,
            s.rentals,
            car_id,
        ),
{
    assert forall|r: u64|
        is_open_for(t.cars, t.rentals, car_id, r) == is_open_for(
            s.cars,
            s.rentals,
            car_id,
            r,
        ) by {
        if is_open_for(s.cars, s.rentals, car_id, r) {
            assert(t.rentals.records.contains_key(r));
            assert forall|later: u64|
                t.rentals.records.contains_key(later) && (#[trigger] t.rentals.records[later]).car_id
                    == t.rentals.records[r].car_id implies later <= r by {
                assert(s.rentals.records.contains_key(later));
                assert(s.rentals.records[later].car_id == s.rentals.records[r].car_id);
            }
        }
        if is_open_for(t.cars, t.rentals, car_id, r) {
            assert(s.rentals.records.contains_key(r));
            assert forall|later: u64|
                s.rentals.records.contains_key(later) && (#[trigger] s.rentals.records[later]).car_id
                    == s.rentals.records[r].car_id implies later <= r by {
                assert(t.rentals.records.contains_key(later));
                assert(t.rentals.records[later].car_id == t.rentals.records[r].car_id);
            }
        }
    }
    if has_one_open_rental(s.cars, s.rentals, car_id) {
        let r = choose|r: u64|
            {
                &&& #[trigger] is_open_for(s.cars, s.rentals, car_id, r)
                &&& forall|other: u64| #[trigger]
                    is_open_for(s.cars, s.rentals, car_id, other) ==> other == r
            };
        assert(is_open_for(t.cars, t.rentals, car_id, r));
    }
    if has_one_open_rental(t.cars, t.rentals, car_id) {
        let r = choose|r: u64|
            {
                &&& #[trigger] is_open_for(t.cars, t.rentals, car_id, r)
                &&& forall|other: u64| #[trigger]
                    is_open_for(t.cars, t.rentals, car_id, other) ==> other == r
            };
        assert(is_open_for(s.cars, s.rentals, car_id, r));
    }
}

/// Starting a rental, or refusing it, keeps a consistent ledger consistent.
pub proof fn lemma_begin_rental_preserves(
    s: LedgerView,
    renter: Seq<char>,
    car_id: u64,
    start_date: u64,
    end_date: u64,
)
    requires
        consistent(s),
        counter_has_room(s, renter, car_id, start_date, end_date),
    ensures
        consistent(begin_rental_spec(s, renter, car_id, start_date, end_date).0),
{
    let (t, r) = begin_rental_spec(s, renter, car_id, start_date, end_date);
    if r is Ok {
        let id = (s.rentals.sequence + 1) as u64;
        assert(t.rentals.records.contains_key(id));
        assert(t.rentals.records[id].car_id == car_id);
        assert(!s.rentals.records.contains_key(id));
        assert forall|c: u64| #[trigger] t.cars.contains_key(c) implies (t.cars[c].car_status
            == Status::InUse <==> has_one_open_rental(t.cars, t.rentals, c)) by {
            if c == car_id {
                assert(is_open_for(t.cars, t.rentals, car_id, id));
                assert forall|other: u64| #[trigger]
                    is_open_for(t.cars, t.rentals, car_id, other) implies other == id by {
                    assert(t.rentals.records[id].car_id == t.rentals.records[other].car_id);
                }
            } else {
                lemma_other_car_untouched(s, t, car_id, c);
            }
        }
    }
}

/// Ending a rental, or refusing to, keeps a consistent ledger consistent.
pub proof fn lemma_end_rental_preserves(s: LedgerView, rent_id: u64)
    requires
        consistent(s),
    ensures
        consistent(end_rental_spec(s, rent_id).0),
{
    let (t, r) = end_rental_spec(s, rent_id);
    if r is Ok {
        let car_id = s.rentals.records[rent_id].car_id;
        assert forall|c: u64| #[trigger] t.cars.contains_key(c) implies (t.cars[c].car_status
            == Status::InUse <==> has_one_open_rental(t.cars, t.rentals, c)) by {
            if c == car_id {
                assert(forall|q: u64| !is_open_for(t.cars, t.rentals, car_id, q));
            } else {
                lemma_other_car_untouched(s, t, car_id, c);
            }
        }
    }
}

/// One request keeps a consistent ledger consistent, whether it is carried
/// out or refused.
pub proof fn lemma_step_preserves_consistency(s: LedgerView, call: Call)
    requires
        consistent(s),
        in_range(s, call),
    ensures
        consistent(step(s, call)),
{
    let t = step(s, call);
    match call.msg {
        ExecuteMsgView::AddCar { id, name, model, rentfee, depositfee } => {
            if s.cars.contains_key(id) {
                lemma_same_fleet_and_rentals(s, t);
            } else {
                lemma_add_car_preserves(s, t, id);
            }
        },
        ExecuteMsgView::AddUser { name, lastname } => {
            lemma_same_fleet_and_rentals(s, t);
        },
        ExecuteMsgView::Deposit { amount } => {
            lemma_same_fleet_and_rentals(s, t);
        },
        ExecuteMsgView::Witdhraw { amount } => {
            lemma_same_fleet_and_rentals(s, t);
        },
        ExecuteMsgView::Rent { car_id, start_date, end_date } => {
            lemma_begin_rental_preserves(s, call.sender, car_id, start_date, end_date);
        },
        ExecuteMsgView::EndRent { rent_id } => {
            lemma_end_rental_preserves(s, rent_id);
        },
    }
}

/// Any sequence of requests keeps a consistent ledger consistent.
pub proof fn lemma_run_preserves_consistency(s: LedgerView, calls: Seq<Call>)
    requires
        consistent(s),
        admissible(s, calls),
    ensures
        consistent(run(s, calls)),
    decreases calls.len(),
{
    if calls.len() > 0 {
        lemma_step_preserves_consistency(s, calls[0]);
        lemma_run_preserves_consistency(step(s, calls[0]), calls.drop_first());
    }
}

/// After any sequence of requests on an empty ledger, a car is in use if and
/// only if it has one open rental and no second one.
pub proof fn lemma_in_use_iff_one_open_rental(calls: Seq<Call>, car_id: u64)
    requires
        admissible(empty_ledger(), calls),
        run(empty_ledger(), calls).cars.contains_key(car_id),
    ensures
        run(empty_ledger(), calls).cars[car_id].car_status == Status::InUse
            <==> has_one_open_rental(
            run(empty_ledger(), calls).cars,
            run(empty_ledger(), calls).rentals,
            car_id,
        ),
{
    lemma_run_preserves_consistency(empty_ledger(), calls);
}

/// The balance that the ledger shows for `address`: zero where it has no
/// account.
pub open spec fn balance_of(users: Accounts, address: Seq<char>) -> int {
    if users.contains_key(address) {
        users[address].balance as int
    } else {
        0
    }
}

/// What one request adds to the balance of `address`, as an integer: the
/// amount of a deposit that was carried out, less the amount of a withdrawal
/// and the cost of a rental that were; nothing for a request that was
/// refused, that another address sent, or that moves no money.
pub open spec fn balance_change(s: LedgerView, call: Call, address: Seq<char>) -> int {
    if call.sender != address || execute_spec(s, call.sender, call.msg).1 is Err {
        0
    } else {
        match call.msg {
            ExecuteMsgView::Deposit { amount } => amount as int,
            ExecuteMsgView::Witdhraw { amount } => -(amount as int),
            ExecuteMsgView::Rent { car_id, start_date, end_date } => -rent_cost(
                s.cars[car_id].rentfee,
                s.cars[car_id].depositfee,
                start_date,
                end_date,
            ),
            _ => 0,
        }
    }
}

/// What the requests `calls`, taken in order from `s`, add to the balance of
/// `address` in all.
pub open spec fn net_flow(s: LedgerView, calls: Seq<Call>, address: Seq<char>) -> int
    decreases calls.len(),
{
    if calls.len() == 0 {
        0
    } else {
        balance_change(s, calls[0], address) + net_flow(
            step(s, calls[0]),
            calls.drop_first(),
            address,
        )
    }
}

/// Whether `t` shows, for every address, the balance of `s` moved by exactly
/// what `call` adds to it or takes from it.
pub open spec fn balances_follow(s: LedgerView, call: Call, t: LedgerView) -> bool {
    forall|address: Seq<char>| #[trigger]
        balance_of(t.users, address) == balance_of(s.users, address) + balance_change(
            s,
            call,
            address,
        )
}

/// One request moves every balance by exactly what it adds or takes.
pub proof fn lemma_step_balances_follow(s: LedgerView, call: Call)
    ensures
        balances_follow(s, call, step(s, call)),
{
    assert forall|address: Seq<char>| #[trigger]
        balance_of(step(s, call).users, address) == balance_of(s.users, address)
            + balance_change(s, call, address) by {
        lemma_step_keeps_balance_exact(s, call, address);
    }
}

/// Whether `t` holds all that `s` holds: every account and every car is
/// still there, every rental record is there unchanged, and the counter has
/// not gone down.
pub open spec fn keeps_all(s: LedgerView, t: LedgerView) -> bool {
    &&& forall|address: Seq<char>| #[trigger]
        s.users.contains_key(address) ==> t.users.contains_key(address)
    &&& forall|car_id: u64| #[trigger] s.cars.contains_key(car_id) ==> t.cars.contains_key(car_id)
    &&& forall|rent_id: u64| #[trigger]
        s.rentals.records.contains_key(rent_id) ==> t.rentals.records.contains_key(rent_id)
            && t.rentals.records[rent_id] == s.rentals.records[rent_id]
    &&& s.rentals.sequence <= t.rentals.sequence
}

/// One request deletes nothing: on a ledger whose ids were issued by the
/// counter, no account, car or rental record goes away, no record changes,
/// and the counter does not go down.
pub proof fn lemma_step_keeps_all(s: LedgerView, call: Call)
    requires
        ids_issued(s.rentals),
        in_range(s, call),
    ensures
        keeps_all(s, step(s, call)),
{
}

/// One request moves a balance by exactly what it adds or takes, without
/// wrapping around, and never below zero.
pub proof fn lemma_step_keeps_balance_exact(s: LedgerView, call: Call, address: Seq<char>)
    ensures
        balance_of(step(s, call).users, address) == balance_of(s.users, address) + balance_change(
            s,
            call,
            address,
        ),
        balance_of(step(s, call).users, address) >= 0,
{
    match call.msg {
        ExecuteMsgView::Rent { car_id, start_date, end_date } => {
            if start_date <= end_date && s.cars.contains_key(car_id) {
                lemma_rent_cost_bounds(
                    s.cars[car_id].rentfee,
                    s.cars[car_id].depositfee,
                    start_date,
                    end_date,
                );
            }
        },
        _ => {},
    }
}

/// After any sequence of deposits, withdrawals, rentals and other requests,
/// every balance is its starting value plus all that was paid in, less all
/// that was taken out, and is never negative.
pub proof fn lemma_balance_never_negative(s: LedgerView, calls: Seq<Call>, address: Seq<char>)
    ensures
        balance_of(run(s, calls).users, address) == balance_of(s.users, address) + net_flow(
            s,
            calls,
            address,
        ),
        balance_of(run(s, calls).users, address) >= 0,
    decreases calls.len(),
{
    if calls.len() > 0 {
        lemma_step_keeps_balance_exact(s, calls[0], address);
        lemma_balance_never_negative(step(s, calls[0]), calls.drop_first(), address);
    }
}

/// A withdrawal of more than the account holds is refused with the balance
/// it holds, and changes nothing.
pub proof fn lemma_overdraw_is_refused(users: Accounts, address: Seq<char>, amount: u64)
    requires
        users.contains_key(address),
        amount > users[address].balance,
    ensures
        withdraw_spec(users, address, amount) == (
            users,
            Err::<u64, ErrorView>(
                ErrorView::InsufficientBalance { balance: users[address].balance },
            ),
        ),
{
}

/// A rental that has just begun can be ended under its id: the car is then
/// exactly as it was before the rental, and ending it moves no money.
pub proof fn lemma_begin_then_end_frees_car(
    s: LedgerView,
    renter: Seq<char>,
    car_id: u64,
    start_date: u64,
    end_date: u64,
)
    requires
        begin_rental_spec(s, renter, car_id, start_date, end_date).1 is Ok,
    ensures
        ({
            let (begun, r) = begin_rental_spec(s, renter, car_id, start_date, end_date);
            let (ended, closed) = end_rental_spec(begun, r->Ok_0.0);
            &&& closed is Ok
            &&& ended.cars[car_id].car_status == Status::Available
            &&& ended.cars == s.cars
            &&& ended.users == begun.users
            &&& ended.rentals == begun.rentals
        }),
{
    let (begun, r) = begin_rental_spec(s, renter, car_id, start_date, end_date);
    let (ended, closed) = end_rental_spec(begun, r->Ok_0.0);
    assert(ended.cars =~= s.cars);
}

/// A rental that would end before it starts is refused for its dates where
/// the car exists and is available, and that car stays available.
pub proof fn lemma_invalid_dates_leave_car_available(
    s: LedgerView,
    renter: Seq<char>,
    car_id: u64,
    start_date: u64,
    end_date: u64,
)
    requires
        s.cars.contains_key(car_id),
        s.cars[car_id].car_status == Status::Available,
        end_date < start_date,
    ensures
        begin_rental_spec(s, renter, car_id, start_date, end_date) == (
            s,
            Err::<(u64, u64), ErrorView>(ErrorView::InvalidRentDates),
        ),
        begin_rental_spec(s, renter, car_id, start_date, end_date).0.cars[car_id].car_status
            == Status::Available,
{
}

/// A request that is refused leaves the whole ledger as it was.
pub proof fn lemma_refusal_changes_nothing(s: LedgerView, call: Call)
    requires
        execute_spec(s, call.sender, call.msg).1 is Err,
    ensures
        step(s, call) == s,
{
}

/// The rent counter never goes down.
pub proof fn lemma_sequence_never_decreases(s: LedgerView, calls: Seq<Call>)
    requires
        admissible(s, calls),
    ensures
        run(s, calls).rentals.sequence >= s.rentals.sequence,
    decreases calls.len(),
{
    if calls.len() > 0 {
        lemma_sequence_never_decreases(step(s, calls[0]), calls.drop_first());
    }
}

/// The id of a new rental is one more than the id issued last, and on a
/// consistent ledger it is larger than every id on record, so that no record
/// is overwritten.
pub proof fn lemma_rent_id_is_new(
    s: LedgerView,
    renter: Seq<char>,
    car_id: u64,
    start_date: u64,
    end_date: u64,
)
    requires
        consistent(s),
        counter_has_room(s, renter, car_id, start_date, end_date),
        begin_rental_spec(s, renter, car_id, start_date, end_date).1 is Ok,
    ensures
        ({
            let (begun, r) = begin_rental_spec(s, renter, car_id, start_date, end_date);
            let id = r->Ok_0.0;
            &&& id == s.rentals.sequence + 1
            &&& begun.rentals.sequence == id
            &&& !s.rentals.records.contains_key(id)
            &&& begun.rentals.records.contains_key(id)
            &&& forall|other: u64| #[trigger] s.rentals.records.contains_key(other) ==> other < id
        }),
{
}

/// Of two rentals that were carried out, the later has the larger id,
/// whatever requests came between them.
pub proof fn lemma_rent_ids_increase(
    s: LedgerView,
    first: Call,
    between: Seq<Call>,
    second: Call,
)
    requires
        first.msg is Rent,
        second.msg is Rent,
        in_range(s, first),
        admissible(step(s, first), between),
        in_range(run(step(s, first), between), second),
        execute_spec(s, first.sender, first.msg).1 is Ok,
        execute_spec(run(step(s, first), between), second.sender, second.msg).1 is Ok,
    ensures
        step(s, first).rentals.sequence < step(
            run(step(s, first), between),
            second,
        ).rentals.sequence,
        issued_id(s, first) < issued_id(run(step(s, first), between), second),
{
    lemma_sequence_never_decreases(step(s, first), between);
}

/// The id under which a rental that is carried out on `s` is filed.
pub open spec fn issued_id(s: LedgerView, call: Call) -> u64
    recommends
        call.msg is Rent,
{
    begin_rental_spec(
        s,
        call.sender,
        call.msg->car_id,
        call.msg->start_date,
        call.msg->end_date,
    ).1->Ok_0.0
}

/// A ledger together with the ids of the rentals that were ended: those
/// that a request to end a rental named and that was carried out.
pub struct History {
    pub ledger: LedgerView,
    pub ended: Set<u64>,
}

/// The history before any request.
pub open spec fn empty_history() -> History {
    History { ledger: empty_ledger(), ended: Set::empty() }
}

/// The history after one more request.
pub open spec fn record(h: History, call: Call) -> History {
    History {
        ledger: step(h.ledger, call),
        ended: if call.msg is EndRent && execute_spec(h.ledger, call.sender, call.msg).1 is Ok {
            h.ended.insert(call.msg->rent_id)
        } else {
            h.ended
        },
    }
}

/// The history after the requests `calls`, taken in order.
pub open spec fn replay(h: History, calls: Seq<Call>) -> History
    decreases calls.len(),
{
    if calls.len() == 0 {
        h
    } else {
        replay(record(h, calls[0]), calls.drop_first())
    }
}

/// Whether a request to end a rental names an open one, or is refused. The
/// ledger also carries out such a request for an earlier rental of a car
/// that is in use again; this leaves that case out.
pub open spec fn ends_open_rental(s: LedgerView, call: Call) -> bool {
    call.msg is EndRent && execute_spec(s, call.sender, call.msg).1 is Ok ==> is_open(
        s.cars,
        s.rentals,
        call.msg->rent_id,
    )
}

/// Whether each request of `calls`, taken in order from `s`, is in range and
/// ends no rental but an open one.
pub open spec fn orderly(s: LedgerView, calls: Seq<Call>) -> bool
    decreases calls.len(),
{
    calls.len() == 0 || (in_range(s, calls[0]) && ends_open_rental(s, calls[0]) && orderly(
        step(s, calls[0]),
        calls.drop_first(),
    ))
}

/// Whether `rent_id` is a rental of the car `car_id` that was not ended.
pub open spec fn is_running_for(h: History, car_id: u64, rent_id: u64) -> bool {
    &&& h.ledger.rentals.records.contains_key(rent_id)
    &&& h.ledger.rentals.records[rent_id].car_id == car_id
    &&& !h.ended.contains(rent_id)
}

/// Whether the car `car_id` has one rental that was not ended, and no second
/// one.
pub open spec fn has_one_running_rental(h: History, car_id: u64) -> bool {
    exists|rent_id: u64|
        {
            &&& #[trigger] is_running_for(h, car_id, rent_id)
            &&& forall|other: u64| #[trigger] is_running_for(h, car_id, other) ==> other == rent_id
        }
}

/// Whether the rentals that were not ended are the open ones.
pub open spec fn ended_matches_open(h: History) -> bool {
    forall|rent_id: u64| #[trigger]
        h.ledger.rentals.records.contains_key(rent_id) ==> (!h.ended.contains(rent_id)
            <==> is_open(h.ledger.cars, h.ledger.rentals, rent_id))
}

/// Whether each rental that was ended is on record.
pub open spec fn ended_on_record(h: History) -> bool {
    forall|rent_id: u64| #[trigger]
        h.ended.contains(rent_id) ==> h.ledger.rentals.records.contains_key(rent_id)
}

/// What holds of every history that orderly requests can reach from an
/// empty one.
pub open spec fn coherent(h: History) -> bool {
    &&& consistent(h.ledger)
    &&& ended_matches_open(h)
    &&& ended_on_record(h)
}

proof fn lemma_ended_are_on_record(h: History)
    requires
        coherent(h),
    ensures
        forall|rent_id: u64|
            !h.ledger.rentals.records.contains_key(rent_id) ==> !h.ended.contains(rent_id),
{
}

/// A change to the car `changed` that adds at most rentals of that car
/// leaves it open or not for each rental of another car.
proof fn lemma_other_rental_untouched(s: LedgerView, t: LedgerView, changed: u64, rent_id: u64)
    requires
        s.rentals.records.contains_key(rent_id),
        s.rentals.records[rent_id].car_id != changed,
        t.cars == s.cars.insert(changed, t.cars[changed]),
        forall|r: u64| #[trigger]
            s.rentals.records.contains_key(r) ==> t.rentals.records.contains_key(r)
                && t.rentals.records[r] == s.rentals.records[r],
        forall|r: u64| #[trigger]
            t.rentals.records.contains_key(r) ==> s.rentals.records.contains_key(r)
                || t.rentals.records[r].car_id == changed,
    ensures
        is_open(t.cars, t.rentals, rent_id) == is_open(s.cars, s.rentals, rent_id),
{
    let car_id = s.rentals.records[rent_id].car_id;
    if is_open(s.cars, s.rentals, rent_id) {
        assert forall|later: u64|
            t.rentals.records.contains_key(later) && (#[trigger] t.rentals.records[later]).car_id
                == t.rentals.records[rent_id].car_id implies later <= rent_id by {
            assert(s.rentals.records.contains_key(later));
            assert(s.rentals.records[later].car_id == car_id);
        }
    }
    if is_open(t.cars, t.rentals, rent_id) {
        assert forall|later: u64|
            s.rentals.records.contains_key(later) && (#[trigger] s.rentals.records[later]).car_id
                == s.rentals.records[rent_id].car_id implies later <= rent_id by {
            assert(t.rentals.records.contains_key(later));
            assert(t.rentals.records[later].car_id == car_id);
        }
    }
}

/// One orderly request keeps a coherent history coherent.
pub proof fn lemma_record_preserves_coherence(h: History, call: Call)
    requires
        coherent(h),
        in_range(h.ledger, call),
        ends_open_rental(h.ledger, call),
    ensures
        coherent(record(h, call)),
{
    let s = h.ledger;
    let g = record(h, call);
    let t = g.ledger;
    lemma_step_preserves_consistency(s, call);
    if execute_spec(s, call.sender, call.msg).1 is Ok {
        match call.msg {
            ExecuteMsgView::AddCar { id, name, model, rentfee, depositfee } => {
                assert forall|r: u64| #[trigger] t.rentals.records.contains_key(r) implies (
                !g.ended.contains(r) <==> is_open(t.cars, t.rentals, r)) by {
                    if s.rentals.records[r].car_id != id {
                        lemma_other_rental_untouched(s, t, id, r);
                    }
                }
            },
            ExecuteMsgView::Rent { car_id, start_date, end_date } => {
                let id = (s.rentals.sequence + 1) as u64;
                assert(t.rentals.records.contains_key(id));
                assert(t.rentals.records[id].car_id == car_id);
                assert forall|r: u64| #[trigger] t.rentals.records.contains_key(r) implies (
                !g.ended.contains(r) <==> is_open(t.cars, t.rentals, r)) by {
                    if r == id {
                        assert(!s.rentals.records.contains_key(id));
                        lemma_ended_are_on_record(h);
                    } else if s.rentals.records[r].car_id != car_id {
                        lemma_other_rental_untouched(s, t, car_id, r);
                    } else {
                        assert(t.rentals.records[id].car_id == t.rentals.records[r].car_id);
                    }
                }
            },
            ExecuteMsgView::EndRent { rent_id } => {
                let car_id = s.rentals.records[rent_id].car_id;
                assert forall|r: u64| #[trigger] t.rentals.records.contains_key(r) implies (
                !g.ended.contains(r) <==> is_open(t.cars, t.rentals, r)) by {
                    if s.rentals.records[r].car_id != car_id {
                        lemma_other_rental_untouched(s, t, car_id, r);
                    } else if r != rent_id {
                        assert(s.rentals.records[r].car_id
                            == s.rentals.records[rent_id].car_id);
                    }
                }
            },
            _ => {},
        }
    }
}

/// Any sequence of orderly requests keeps a coherent history coherent, and
/// its ledger is the one that the requests lead to.
pub proof fn lemma_replay_preserves_coherence(h: History, calls: Seq<Call>)
    requires
        coherent(h),
        orderly(h.ledger, calls),
    ensures
        coherent(replay(h, calls)),
        replay(h, calls).ledger == run(h.ledger, calls),
    decreases calls.len(),
{
    if calls.len() > 0 {
        lemma_record_preserves_coherence(h, calls[0]);
        lemma_replay_preserves_coherence(record(h, calls[0]), calls.drop_first());
    }
}

/// After any sequence of orderly requests on an empty ledger, a car is in
/// use if and only if it has one rental that was not ended, and no second
/// one.
pub proof fn lemma_in_use_iff_one_rental_not_ended(calls: Seq<Call>, car_id: u64)
    requires
        orderly(empty_ledger(), calls),
        replay(empty_history(), calls).ledger.cars.contains_key(car_id),
    ensures
        replay(empty_history(), calls).ledger.cars[car_id].car_status == Status::InUse
            <==> has_one_running_rental(replay(empty_history(), calls), car_id),
{
    let h = replay(empty_history(), calls);
    lemma_replay_preserves_coherence(empty_history(), calls);
    assert forall|r: u64|
        is_running_for(h, car_id, r) == is_open_for(
            h.ledger.cars,
            h.ledger.rentals,
            car_id,
            r,
        ) by {}
    if has_one_open_rental(h.ledger.cars, h.ledger.rentals, car_id) {
        let r = choose|r: u64|
            {
                &&& #[trigger] is_open_for(h.ledger.cars, h.ledger.rentals, car_id, r)
                &&& forall|other: u64| #[trigger]
                    is_open_for(h.ledger.cars, h.ledger.rentals, car_id, other) ==> other == r
            };
        assert(is_running_for(h, car_id, r));
    }
    if has_one_running_rental(h, car_id) {
        let r = choose|r: u64|
            {
                &&& #[trigger] is_running_for(h, car_id, r)
                &&& forall|other: u64| #[trigger] is_running_for(h, car_id, other) ==> other == r
            };
        assert(is_open_for(h.ledger.cars, h.ledger.rentals, car_id, r));
    }
}

} // verus!

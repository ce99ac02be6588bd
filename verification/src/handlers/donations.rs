//! Donation addresses.

use crate::error::{bad_request, forbidden, AppError, Lookup, Refusal};
use crate::group::{applied_all, DonationRow, GroupDb};
use crate::handlers::checks::rows_found;
use crate::json::{array, jsons, lookup_of_push, member_of, obj, Fields, Json, JsonValue};
use crate::models::permission::{Permission, MANAGE_DONATIONS};
use crate::outcome::{replying, told, Effect, Outcome};
use crate::permissions::{granted, has_permission, permitted};
use crate::store::{Change, Write};
use crate::text::{byte_count, byte_len, trim, trimmed};
use vstd::prelude::*;
use vstd::string::*;

verus! {

/// How many donation addresses there may be.
pub const MAX_ADDRESSES: usize = 20;

/// A donation address in the list of them.
pub struct DonationEntry {
    pub id: i64,
    pub label: String,
    pub address: String,
}

/// A donation address in the list of them.
pub open spec fn donation_json(d: DonationEntry) -> Json {
    obj().with("id"@, Json::Int(d.id as int)).with("label"@, Json::Text(d.label@)).with(
        "address"@,
        Json::Text(d.address@),
    ).json()
}

fn donation_value(d: &DonationEntry) -> (res: JsonValue)
    ensures
        res@ == donation_json(*d),
{
    Fields::new().put_int("id", d.id).put_text("label", d.label.as_str()).put_text(
        "address",
        d.address.as_str(),
    ).done()
}

/// The list of donation addresses.
fn donation_list(rows: &Vec<DonationEntry>) -> (res: JsonValue)
    ensures
        res@ == Json::Array(rows@.map_values(|r: DonationEntry| donation_json(r))),
{
    let mut out: Vec<JsonValue> = Vec::new();
    let mut i: usize = 0;
    while i < rows.len()
        invariant
            i <= rows@.len(),
            jsons(out@) == rows@.take(i as int).map_values(|r: DonationEntry| donation_json(r)),
        decreases rows@.len() - i,
    {
        let ghost before = out@;
        out.push(donation_value(&rows[i]));
        proof {
            assert(jsons(out@) =~= jsons(before).push(donation_json(rows@[i as int])));
            assert(rows@.take(i + 1).map_values(|r: DonationEntry| donation_json(r)) =~= rows@.take(
                i as int,
            ).map_values(|r: DonationEntry| donation_json(r)).push(donation_json(rows@[i as int])));
        }
        i += 1;
    }
    assert(rows@.take(rows@.len() as int) =~= rows@);
    assert(jsons(out@) == rows@.map_values(|r: DonationEntry| donation_json(r)));
    array(out)
}

/// What asking for the donation addresses leads to.
pub open spec fn donations_listed(rows: Result<Seq<DonationEntry>, Refusal>) -> Result<Effect, Refusal> {
    match rows {
        Err(e) => Err(e),
        Ok(r) => Ok(replying(Json::Array(r.map_values(|d: DonationEntry| donation_json(d))))),
    }
}

/// List the donation addresses.
pub fn get_donations(rows: &Result<Vec<DonationEntry>, String>) -> (res: Result<Outcome, AppError>)
    ensures
        told(res) == donations_listed(rows_found(*rows)),
{
    match rows {
        Err(e) => Err(AppError::Internal(e.clone())),
        Ok(r) => Ok(Outcome::replying(donation_list(r))),
    }
}

/// A donation address to store.
pub struct DonationAddressInput {
    pub label: String,
    pub address: String,
}

/// A request to replace the donation addresses.
pub struct SetDonationsRequest {
    pub addresses: Vec<DonationAddressInput>,
}

/// Whether a donation address may be stored: a label of 1 to 40 bytes and an
/// address of 1 to 200.
pub open spec fn address_fits(a: DonationAddressInput) -> Result<(), Refusal> {
    let label = trimmed(a.label@);
    let address = trimmed(a.address@);
    if label.len() == 0 || byte_count(label) > 40 {
        Err(Refusal::BadRequest("label must be 1-40 characters"@))
    } else if address.len() == 0 || byte_count(address) > 200 {
        Err(Refusal::BadRequest("address must be 1-200 characters"@))
    } else {
        Ok(())
    }
}

/// Whether some donation addresses may be stored: the complaint about the first
/// that may not.
pub open spec fn addresses_fit(list: Seq<DonationAddressInput>) -> Result<(), Refusal>
    decreases list.len(),
{
    if list.len() == 0 {
        Ok(())
    } else {
        match addresses_fit(list.drop_last()) {
            Err(e) => Err(e),
            Ok(_) => address_fits(list.last()),
        }
    }
}

fn check_address(a: &DonationAddressInput) -> (res: Result<(), AppError>)
    ensures
        crate::error::shown(res) == address_fits(*a),
{
    let label = trim(a.label.as_str());
    let address = trim(a.address.as_str());
    if label.as_str().unicode_len() == 0 || byte_len(label.as_str()) > 40 {
        return Err(bad_request("label must be 1-40 characters"));
    }
    if address.as_str().unicode_len() == 0 || byte_len(address.as_str()) > 200 {
        return Err(bad_request("address must be 1-200 characters"));
    }
    Ok(())
}

proof fn complaint_stays(list: Seq<DonationAddressInput>, n: int)
    requires
        0 <= n <= list.len(),
        addresses_fit(list.take(n)) is Err,
    ensures
        addresses_fit(list) == addresses_fit(list.take(n)),
    decreases list.len(),
{
    if n == list.len() {
        assert(list.take(n) =~= list);
    } else {
        assert(list.drop_last().take(n) =~= list.take(n));
        complaint_stays(list.drop_last(), n);
    }
}

/// An effect that stores donation addresses one after the other.
pub open spec fn storing(effect: Effect, list: Seq<DonationAddressInput>) -> Effect
    decreases list.len(),
{
    if list.len() == 0 {
        effect
    } else {
        storing(effect, list.drop_last()).and_change(
            Change::InsertDonation {
                label: trimmed(list.last().label@),
                address: trimmed(list.last().address@),
                sort_order: (list.len() - 1) as i64,
            },
        )
    }
}

/// What replacing the donation addresses leads to.
pub open spec fn donations_set(bits: Lookup<i64>, list: Seq<DonationAddressInput>) -> Result<
    Effect,
    Refusal,
> {
    if list.len() > MAX_ADDRESSES {
        Err(Refusal::BadRequest("Too many addresses (max 20)"@))
    } else {
        match addresses_fit(list) {
            Err(e) => Err(e),
            Ok(_) => match permitted(bits, MANAGE_DONATIONS) {
                Err(e) => Err(e),
                Ok(false) => Err(Refusal::Forbidden("Insufficient permissions"@)),
                Ok(true) => Ok(
                    storing(
                        replying(
                            obj().with("ok"@, Json::Bool(true)).with(
                                "count"@,
                                Json::Int(list.len() as int),
                            ).json(),
                        ).at_once().and_change(Change::ClearDonations),
                        list,
                    ),
                ),
            },
        }
    }
}

/// Replace the donation addresses, in one transaction.
pub fn set_donations(bits: &Lookup<i64>, req: &SetDonationsRequest) -> (res: Result<Outcome, AppError>)
    ensures
        told(res) == donations_set(*bits, req.addresses@),
{
    let list = &req.addresses;
    if list.len() > MAX_ADDRESSES {
        return Err(bad_request("Too many addresses (max 20)"));
    }
    let mut i: usize = 0;
    while i < list.len()
        invariant
            i <= list@.len(),
            list@ == req.addresses@,
            list@.len() <= MAX_ADDRESSES,
            addresses_fit(list@.take(i as int)) == Ok::<(), Refusal>(()),
        decreases list@.len() - i,
    {
        assert(list@.take(i + 1).drop_last() =~= list@.take(i as int));
        match check_address(&list[i]) {
            Err(e) => {
                proof {
                    complaint_stays(list@, i + 1);
                }
                return Err(e);
            },
            Ok(_) => {},
        }
        i += 1;
    }
    assert(list@.take(list@.len() as int) =~= list@);
    if !has_permission(bits, Permission { bits: MANAGE_DONATIONS })? {
        return Err(forbidden("Insufficient permissions"));
    }
    let reply = Fields::new().put_bool("ok", true).put_int("count", list.len() as i64).done();
    let mut out = Outcome::replying(reply).at_once().and_write(Write::ClearDonations);
    let ghost start = out@;
    let mut k: usize = 0;
    while k < list.len()
        invariant
            k <= list@.len() <= MAX_ADDRESSES,
            out@ == storing(start, list@.take(k as int)),
        decreases list@.len() - k,
    {
        assert(list@.take(k + 1).drop_last() =~= list@.take(k as int));
        out = out.and_write(
            Write::InsertDonation {
                label: trim(list[k].label.as_str()),
                address: trim(list[k].address.as_str()),
                sort_order: k as i64,
            },
        );
        k += 1;
    }
    assert(list@.take(list@.len() as int) =~= list@);
    Ok(out)
}

/// The rows of some donation addresses.
pub open spec fn donation_rows(list: Seq<DonationAddressInput>) -> Seq<DonationRow> {
    Seq::new(
        list.len(),
        |i: int|
            DonationRow {
                label: trimmed(list[i].label@),
                address: trimmed(list[i].address@),
                sort_order: i as i64,
            },
    )
}

proof fn storing_stores(effect: Effect, list: Seq<DonationAddressInput>, db: GroupDb)
    requires
        applied_all(db, effect.changes).donations == Seq::<DonationRow>::empty(),
    ensures
        applied_all(db, storing(effect, list).changes) == (GroupDb {
            donations: donation_rows(list),
            ..applied_all(db, effect.changes)
        }),
        storing(effect, list).atomic == effect.atomic,
    decreases list.len(),
{
    let before = applied_all(db, effect.changes);
    if list.len() == 0 {
        assert(donation_rows(list) =~= Seq::<DonationRow>::empty());
    } else {
        storing_stores(effect, list.drop_last(), db);
        let so_far = storing(effect, list.drop_last()).changes;
        assert(storing(effect, list).changes.drop_last() =~= so_far);
        assert(donation_rows(list) =~= donation_rows(list.drop_last()).push(
            DonationRow {
                label: trimmed(list.last().label@),
                address: trimmed(list.last().address@),
                sort_order: (list.len() - 1) as i64,
            },
        ));
    }
}

/// Afterwards there are exactly the addresses of the request, trimmed and in its
/// order, at most 20, whatever there was before; nothing else changes, and it all
/// happens in one transaction.
pub proof fn donations_are_replaced(bits: Lookup<i64>, list: Seq<DonationAddressInput>, db: GroupDb)
    requires
        donations_set(bits, list) is Ok,
    ensures
        donations_set(bits, list)->Ok_0.atomic,
        applied_all(db, donations_set(bits, list)->Ok_0.changes) == (GroupDb {
            donations: donation_rows(list),
            ..db
        }),
        donation_rows(list).len() <= 20,
        permitted(bits, MANAGE_DONATIONS) == Ok::<bool, Refusal>(true),
{
    let start = replying(
        obj().with("ok"@, Json::Bool(true)).with("count"@, Json::Int(list.len() as int)).json(),
    ).at_once().and_change(Change::ClearDonations);
    reveal_with_fuel(applied_all, 2);
    assert(start.changes.drop_last() =~= Seq::<Change>::empty());
    storing_stores(start, list, db);
}

/// Everyone is told every donation address, in the order in which they were read,
/// with the columns of its row.
pub proof fn every_donation_address_is_told(rows: Result<Seq<DonationEntry>, Refusal>, i: int)
    ensures
        donations_listed(rows) is Ok <==> rows is Ok,
        donations_listed(rows) matches Ok(effect) ==> {
            let told = effect.reply->Array_0;
            let d = rows->Ok_0[i];
            &&& effect.changes.len() == 0
            &&& effect.notices.len() == 0
            &&& effect.reply is Array
            &&& told.len() == rows->Ok_0.len()
            &&& 0 <= i < told.len() ==> {
                &&& member_of(told[i], "id"@) == Some(Json::Int(d.id as int))
                &&& member_of(told[i], "label"@) == Some(Json::Text(d.label@))
                &&& member_of(told[i], "address"@) == Some(Json::Text(d.address@))
            }
        },
{
    broadcast use lookup_of_push;

    reveal_strlit("id");
    reveal_strlit("label");
    reveal_strlit("address");
}

proof fn all_addresses_fit(list: Seq<DonationAddressInput>)
    ensures
        addresses_fit(list) is Ok <==> forall|i: int|
            0 <= i < list.len() ==> address_fits(#[trigger] list[i]) is Ok,
    decreases list.len(),
{
    if list.len() > 0 {
        let rest = list.drop_last();
        all_addresses_fit(rest);
        assert(list.last() == list[list.len() - 1]);
        assert forall|i: int| 0 <= i < rest.len() implies #[trigger] rest[i] == list[i] by {}
        if addresses_fit(rest) is Err {
            let i = choose|i: int| 0 <= i < rest.len() && address_fits(#[trigger] rest[i]) is Err;
            assert(address_fits(list[i]) is Err);
        } else if addresses_fit(list) is Ok {
            assert forall|i: int| 0 <= i < list.len() implies address_fits(#[trigger] list[i]) is Ok by {
                if i < rest.len() {
                    assert(address_fits(rest[i]) is Ok);
                }
            }
        }
    }
}

/// The donation addresses are replaced if and only if there are at most 20, each
/// with a label of 1 to 40 and an address of 1 to 200 bytes without white space
/// around them, and the user may manage donations. Each is stored so, at its place
/// in the request, and the user is told how many there are.
pub proof fn donation_addresses_are_stored_as_given(
    bits: Lookup<i64>,
    list: Seq<DonationAddressInput>,
    db: GroupDb,
    i: int,
)
    ensures
        donations_set(bits, list) is Ok <==> {
            &&& list.len() <= 20
            &&& forall|k: int|
                0 <= k < list.len() ==> {
                    let a = #[trigger] list[k];
                    &&& 0 < trimmed(a.label@).len() && byte_count(trimmed(a.label@)) <= 40
                    &&& 0 < trimmed(a.address@).len() && byte_count(trimmed(a.address@)) <= 200
                }
            &&& granted(bits, MANAGE_DONATIONS)
        },
        donations_set(bits, list) matches Ok(effect) ==> {
            let after = applied_all(db, effect.changes);
            &&& effect.atomic
            &&& after.donations.len() == list.len()
            &&& 0 <= i < list.len() ==> after.donations[i].label == trimmed(list[i].label@)
                && after.donations[i].address == trimmed(list[i].address@) && after.donations[i].sort_order == i
            &&& after == (GroupDb { donations: after.donations, ..db })
            &&& effect.notices.len() == 0
            &&& member_of(effect.reply, "ok"@) == Some(Json::Bool(true))
            &&& member_of(effect.reply, "count"@) == Some(Json::Int(list.len() as int))
        },
{
    all_addresses_fit(list);
    assert forall|k: int| 0 <= k < list.len() implies (address_fits(#[trigger] list[k]) is Ok <==> 0 < trimmed(
        list[k].label@,
    ).len() && byte_count(trimmed(list[k].label@)) <= 40 && 0 < trimmed(list[k].address@).len() && byte_count(
        trimmed(list[k].address@),
    ) <= 200) by {}
    if let Ok(effect) = donations_set(bits, list) {
        donations_are_replaced(bits, list, db);
        let start = replying(
            obj().with("ok"@, Json::Bool(true)).with("count"@, Json::Int(list.len() as int)).json(),
        ).at_once().and_change(Change::ClearDonations);
        storing_only_stores(start, list);
        assert(member_of(start.reply, "ok"@) == Some(Json::Bool(true)) && member_of(start.reply, "count"@)
            == Some(Json::Int(list.len() as int))) by {
            broadcast use lookup_of_push;

            reveal_strlit("ok");
            reveal_strlit("count");
        }
    }
}

proof fn storing_only_stores(effect: Effect, list: Seq<DonationAddressInput>)
    ensures
        storing(effect, list) == (Effect { changes: storing(effect, list).changes, ..effect }),
    decreases list.len(),
{
    if list.len() > 0 {
        storing_only_stores(effect, list.drop_last());
    }
}

/// Donation addresses that may not be stored are malformed, and whoever may not
/// manage donations is refused.
pub proof fn refusals_about_donations(bits: Lookup<i64>, list: Seq<DonationAddressInput>)
    ensures
        donations_set(bits, list) is Err && granted(bits, MANAGE_DONATIONS) ==> donations_set(bits, list) matches Err(
            Refusal::BadRequest(_),
        ),
        list.len() == 0 && bits !is Failed && !granted(bits, MANAGE_DONATIONS) ==> donations_set(bits, list)
            matches Err(Refusal::Forbidden(_)),
{
    complaints_are_about_the_form(list);
}

proof fn complaints_are_about_the_form(list: Seq<DonationAddressInput>)
    ensures
        addresses_fit(list) is Err ==> addresses_fit(list) matches Err(Refusal::BadRequest(_)),
    decreases list.len(),
{
    if list.len() > 0 {
        complaints_are_about_the_form(list.drop_last());
    }
}

} // verus!

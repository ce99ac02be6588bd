//! Permission sets: bit sets over fourteen named flags.

use crate::text::{glue, same, texts};
use vstd::prelude::*;

verus! {

/// A set of permissions, one bit per flag.
#[derive(Debug, Clone, Copy, PartialEq, Eq, Structural)]
pub struct Permission {
    pub bits: i64,
}

pub const KICK_MEMBERS: i64 = 0x1;

pub const BAN_MEMBERS: i64 = 0x2;

pub const MUTE_MEMBERS: i64 = 0x4;

pub const MANAGE_ROLES: i64 = 0x8;

pub const MANAGE_SETTINGS: i64 = 0x10;

pub const MANAGE_DONATIONS: i64 = 0x20;

pub const CREATE_POLLS: i64 = 0x40;

pub const POST_IN_CHANNEL: i64 = 0x80;

pub const DELETE_MESSAGES: i64 = 0x100;

pub const MANAGE_MEMBERS: i64 = 0x400;

pub const MANAGE_SLOW_MODE: i64 = 0x800;

pub const VIEW_BAN_LIST: i64 = 0x1000;

pub const VIEW_MUTE_LIST: i64 = 0x2000;

pub const VIEW_INVITE_LINK: i64 = 0x4000;

/// How many flags there are.
pub const FLAG_COUNT: usize = 14;

/// Every flag.
pub const ALL_BITS: i64 = 0x7DFF;

/// The `i`th flag.
pub open spec fn flag(i: int) -> i64 {
    if i == 0 { 0x1 } else if i == 1 { 0x2 } else if i == 2 { 0x4 } else if i == 3 { 0x8 }
    else if i == 4 { 0x10 } else if i == 5 { 0x20 } else if i == 6 { 0x40 }
    else if i == 7 { 0x80 } else if i == 8 { 0x100 } else if i == 9 { 0x400 }
    else if i == 10 { 0x800 } else if i == 11 { 0x1000 } else if i == 12 { 0x2000 }
    else { 0x4000 }
}

/// The name of the `i`th flag on the wire.
pub open spec fn flag_name(i: int) -> Seq<char> {
    if i == 0 { "kick_members"@ } else if i == 1 { "ban_members"@ }
    else if i == 2 { "mute_members"@ } else if i == 3 { "manage_roles"@ }
    else if i == 4 { "manage_settings"@ } else if i == 5 { "manage_donations"@ }
    else if i == 6 { "create_polls"@ } else if i == 7 { "post_in_channel"@ }
    else if i == 8 { "delete_messages"@ } else if i == 9 { "manage_members"@ }
    else if i == 10 { "manage_slow_mode"@ } else if i == 11 { "view_ban_list"@ }
    else if i == 12 { "view_mute_list"@ } else { "view_invite_link"@ }
}

/// The first flag from the `i`th on whose name is `s`.
pub open spec fn flag_named_from(s: Seq<char>, i: int) -> Option<i64>
    decreases FLAG_COUNT - i,
{
    if i >= FLAG_COUNT {
        None
    } else if flag_name(i) == s {
        Some(flag(i))
    } else {
        flag_named_from(s, i + 1)
    }
}

/// The flag with the name `s`.
pub open spec fn flag_named(s: Seq<char>) -> Option<i64> {
    flag_named_from(s, 0)
}

/// Whether a set holds all of another.
pub open spec fn holds(bits: i64, wanted: i64) -> bool {
    bits & wanted == wanted
}

/// The names of the first `n` flags that a set holds, in the order of the flags.
pub open spec fn names_up_to(bits: i64, n: int) -> Seq<Seq<char>>
    decreases n,
{
    if n <= 0 {
        Seq::empty()
    } else if holds(bits, flag(n - 1)) {
        names_up_to(bits, n - 1).push(flag_name(n - 1))
    } else {
        names_up_to(bits, n - 1)
    }
}

/// The names of the flags that a set holds.
pub open spec fn names_of(bits: i64) -> Seq<Seq<char>> {
    names_up_to(bits, FLAG_COUNT as int)
}

/// The set that a list of names stands for, or the complaint about the first
/// name that is no flag's.
pub open spec fn named_set(names: Seq<Seq<char>>) -> Result<i64, Seq<char>>
    decreases names.len(),
{
    if names.len() == 0 {
        Ok(0)
    } else {
        match named_set(names.drop_last()) {
            Err(e) => Err(e),
            Ok(bits) => match flag_named(names.last()) {
                Some(f) => Ok(bits | f),
                None => Err("Unknown permission: "@ + names.last()),
            },
        }
    }
}

fn flag_at(i: usize) -> (res: Permission)
    requires
        i < FLAG_COUNT,
    ensures
        res.bits == flag(i as int),
{
    let bits: i64 = if i == 0 { 0x1 } else if i == 1 { 0x2 } else if i == 2 { 0x4 }
        else if i == 3 { 0x8 } else if i == 4 { 0x10 } else if i == 5 { 0x20 }
        else if i == 6 { 0x40 } else if i == 7 { 0x80 } else if i == 8 { 0x100 }
        else if i == 9 { 0x400 } else if i == 10 { 0x800 } else if i == 11 { 0x1000 }
        else if i == 12 { 0x2000 } else { 0x4000 };
    Permission { bits }
}

fn flag_name_at(i: usize) -> (res: &'static str)
    requires
        i < FLAG_COUNT,
    ensures
        res@ == flag_name(i as int),
{
    if i == 0 { "kick_members" } else if i == 1 { "ban_members" }
    else if i == 2 { "mute_members" } else if i == 3 { "manage_roles" }
    else if i == 4 { "manage_settings" } else if i == 5 { "manage_donations" }
    else if i == 6 { "create_polls" } else if i == 7 { "post_in_channel" }
    else if i == 8 { "delete_messages" } else if i == 9 { "manage_members" }
    else if i == 10 { "manage_slow_mode" } else if i == 11 { "view_ban_list" }
    else if i == 12 { "view_mute_list" } else { "view_invite_link" }
}

impl Permission {
    /// The empty set.
    pub fn empty() -> (res: Self)
        ensures
            res.bits == 0,
    {
        Permission { bits: 0 }
    }

    /// Every flag.
    pub fn all() -> (res: Self)
        ensures
            res.bits == ALL_BITS,
    {
        Permission { bits: ALL_BITS }
    }

    /// The set as bits.
    pub fn bits(&self) -> (res: i64)
        ensures
            res == self.bits,
    {
        self.bits
    }

    /// The flags among some bits; other bits are dropped.
    pub fn from_bits_truncate(bits: i64) -> (res: Self)
        ensures
            res.bits == bits & ALL_BITS,
    {
        Permission { bits: bits & ALL_BITS }
    }

    /// Whether the set holds all of another.
    pub fn contains(&self, other: Permission) -> (res: bool)
        ensures
            res == holds(self.bits, other.bits),
    {
        self.bits & other.bits == other.bits
    }

    /// Both sets together.
    pub fn union(self, other: Permission) -> (res: Self)
        ensures
            res.bits == self.bits | other.bits,
    {
        Permission { bits: self.bits | other.bits }
    }

    /// The flag with the given lowercase snake_case name, such as `kick_members`.
    pub fn from_wire_name(s: &str) -> (res: Option<Self>)
        ensures
            res is Some <==> flag_named(s@) is Some,
            res matches Some(p) ==> flag_named(s@) == Some(p.bits),
    {
        let mut i: usize = 0;
        while i < FLAG_COUNT
            invariant
                i <= FLAG_COUNT,
                flag_named(s@) == flag_named_from(s@, i as int),
            decreases FLAG_COUNT - i,
        {
            if same(flag_name_at(i), s) {
                return Some(flag_at(i));
            }
            i += 1;
        }
        None
    }

    /// The names of the flags in the set.
    pub fn to_names(self) -> (res: Vec<String>)
        ensures
            texts(res@) == names_of(self.bits),
    {
        let mut out: Vec<String> = Vec::new();
        let mut i: usize = 0;
        assert(texts(out@) =~= names_up_to(self.bits, 0));
        while i < FLAG_COUNT
            invariant
                i <= FLAG_COUNT,
                texts(out@) == names_up_to(self.bits, i as int),
            decreases FLAG_COUNT - i,
        {
            let ghost before = texts(out@);
            if self.contains(flag_at(i)) {
                let name = flag_name_at(i).to_owned();
                out.push(name);
                assert(texts(out@) =~= before.push(name@));
            }
            i += 1;
        }
        out
    }

    /// The set of the named flags, or a complaint about the first unknown name.
    pub fn from_names(names: &[String]) -> (res: Result<Self, String>)
        ensures
            match res {
                Ok(p) => named_set(texts(names@)) == Ok::<i64, Seq<char>>(p.bits),
                Err(e) => named_set(texts(names@)) == Err::<i64, Seq<char>>(e@),
            },
    {
        let mut result = Self::empty();
        let mut i: usize = 0;
        let ghost all = texts(names@);
        assert(all.take(0) =~= Seq::<Seq<char>>::empty());
        while i < names.len()
            invariant
                i <= names@.len(),
                all == texts(names@),
                named_set(all.take(i as int)) == Ok::<i64, Seq<char>>(result.bits),
            decreases names@.len() - i,
        {
            proof {
                assert(all.take(i + 1).drop_last() =~= all.take(i as int));
                assert(all.take(i + 1).last() == names@[i as int]@);
                lemma_named_set_fails_early(all, i + 1);
            }
            match Self::from_wire_name(names[i].as_str()) {
                Some(f) => {
                    result = result.union(f);
                },
                None => {
                    return Err(glue("Unknown permission: ", names[i].as_str()));
                },
            }
            i += 1;
        }
        assert(all.take(i as int) =~= all);
        Ok(result)
    }
}

proof fn lemma_named_set_fails_early(names: Seq<Seq<char>>, n: int)
    requires
        0 <= n <= names.len(),
    ensures
        named_set(names.take(n)) is Err ==> named_set(names) == named_set(names.take(n)),
    decreases names.len(),
{
    if n == names.len() {
        assert(names.take(n) =~= names);
    } else {
        lemma_named_set_fails_early(names.drop_last(), n);
        assert(names.drop_last().take(n) =~= names.take(n));
    }
}

/// The first `n` flags together.
spec fn mask(n: int) -> i64
    decreases n,
{
    if n <= 0 {
        0
    } else {
        mask(n - 1) | flag(n - 1)
    }
}

proof fn lemma_mask_is_all()
    ensures
        mask(14) == ALL_BITS,
{
    reveal_with_fuel(mask, 15);
    assert(0i64 | 0x1 | 0x2 | 0x4 | 0x8 | 0x10 | 0x20 | 0x40 | 0x80 | 0x100 | 0x400 | 0x800 | 0x1000
        | 0x2000 | 0x4000 == 0x7DFFi64) by (bit_vector);
}

/// A set holds a flag, or nothing of it.
proof fn lemma_flag_is_one_bit(bits: i64, i: int)
    requires
        0 <= i < FLAG_COUNT,
    ensures
        holds(bits, flag(i)) || bits & flag(i) == 0,
{
    let f = flag(i);
    assert(bits & f == f || bits & f == 0) by (bit_vector)
        requires
            f == 0x1 || f == 0x2 || f == 0x4 || f == 0x8 || f == 0x10 || f == 0x20 || f == 0x40
                || f == 0x80 || f == 0x100 || f == 0x400 || f == 0x800 || f == 0x1000
                || f == 0x2000 || f == 0x4000,
    ;
}

proof fn lemma_names_are_distinct(i: int, j: int)
    requires
        0 <= i < FLAG_COUNT,
        0 <= j < FLAG_COUNT,
        flag_name(i) == flag_name(j),
    ensures
        i == j,
{
    reveal_strlit("kick_members");
    reveal_strlit("ban_members");
    reveal_strlit("mute_members");
    reveal_strlit("manage_roles");
    reveal_strlit("manage_settings");
    reveal_strlit("manage_donations");
    reveal_strlit("create_polls");
    reveal_strlit("post_in_channel");
    reveal_strlit("delete_messages");
    reveal_strlit("manage_members");
    reveal_strlit("manage_slow_mode");
    reveal_strlit("view_ban_list");
    reveal_strlit("view_mute_list");
    reveal_strlit("view_invite_link");
    let a = flag_name(i);
    let b = flag_name(j);
    assert(a.len() == b.len());
    assert(a[0] == b[0] && a[5] == b[5] && a[7] == b[7] && a[8] == b[8]);
}

proof fn lemma_name_finds_flag(i: int, from: int)
    requires
        0 <= from <= i < FLAG_COUNT,
    ensures
        flag_named_from(flag_name(i), from) == Some(flag(i)),
    decreases i - from,
{
    if flag_name(from) == flag_name(i) {
        lemma_names_are_distinct(from, i);
    } else {
        lemma_name_finds_flag(i, from + 1);
    }
}

proof fn lemma_names_give_masked_bits(bits: i64, n: int)
    requires
        0 <= n <= FLAG_COUNT,
    ensures
        named_set(names_up_to(bits, n)) == Ok::<i64, Seq<char>>(bits & mask(n)),
    decreases n,
{
    if n == 0 {
        assert(bits & 0 == 0) by (bit_vector);
    } else {
        lemma_names_give_masked_bits(bits, n - 1);
        lemma_flag_is_one_bit(bits, n - 1);
        lemma_name_finds_flag(n - 1, 0);
        let m = mask(n - 1);
        let f = flag(n - 1);
        assert(bits & f == f ==> (bits & m) | f == bits & (m | f)) by (bit_vector);
        assert(bits & f == 0 ==> bits & m == bits & (m | f)) by (bit_vector);
        if holds(bits, f) {
            let names = names_up_to(bits, n);
            assert(names.drop_last() =~= names_up_to(bits, n - 1));
        } else {
            assert(f != 0);
        }
    }
}

/// Reading the names of a set back gives the set's flags again.
pub proof fn names_round_trip(bits: i64)
    ensures
        named_set(names_of(bits)) == Ok::<i64, Seq<char>>(bits & ALL_BITS),
{
    lemma_names_give_masked_bits(bits, FLAG_COUNT as int);
    lemma_mask_is_all();
}

proof fn lemma_named_flag_is_a_flag(s: Seq<char>, from: int)
    requires
        0 <= from,
    ensures
        flag_named_from(s, from) matches Some(f) ==> f & ALL_BITS == f,
    decreases FLAG_COUNT - from,
{
    if from < FLAG_COUNT {
        if flag_name(from) == s {
            let f = flag(from);
            assert(f & 0x7DFF == f) by (bit_vector)
                requires
                    f == 0x1 || f == 0x2 || f == 0x4 || f == 0x8 || f == 0x10 || f == 0x20
                        || f == 0x40 || f == 0x80 || f == 0x100 || f == 0x400 || f == 0x800
                        || f == 0x1000 || f == 0x2000 || f == 0x4000,
            ;
        } else {
            lemma_named_flag_is_a_flag(s, from + 1);
        }
    }
}

/// A set read from names holds known flags only.
pub proof fn named_sets_hold_known_flags(names: Seq<Seq<char>>)
    ensures
        named_set(names) matches Ok(bits) ==> bits & ALL_BITS == bits,
    decreases names.len(),
{
    if names.len() == 0 {
        assert(0i64 & 0x7DFF == 0) by (bit_vector);
    } else {
        named_sets_hold_known_flags(names.drop_last());
        lemma_named_flag_is_a_flag(names.last(), 0);
        if let Ok(bits) = named_set(names.drop_last()) {
            if let Some(f) = flag_named(names.last()) {
                assert(bits & 0x7DFF == bits && f & 0x7DFF == f ==> (bits | f) & 0x7DFF == bits | f)
                    by (bit_vector);
            }
        }
    }
}

/// The full set holds every set of known flags.
pub proof fn all_holds_every_flag(wanted: i64)
    requires
        wanted & ALL_BITS == wanted,
    ensures
        holds(ALL_BITS, wanted),
{
    assert(wanted & 0x7DFF == wanted ==> 0x7DFF & wanted == wanted) by (bit_vector);
}

/// Each permission goes by its name.
pub proof fn permissions_go_by_their_names()
    ensures
        flag_named("kick_members"@) == Some(KICK_MEMBERS),
        flag_named("ban_members"@) == Some(BAN_MEMBERS),
        flag_named("mute_members"@) == Some(MUTE_MEMBERS),
        flag_named("manage_roles"@) == Some(MANAGE_ROLES),
        flag_named("manage_settings"@) == Some(MANAGE_SETTINGS),
        flag_named("manage_donations"@) == Some(MANAGE_DONATIONS),
        flag_named("create_polls"@) == Some(CREATE_POLLS),
        flag_named("post_in_channel"@) == Some(POST_IN_CHANNEL),
        flag_named("delete_messages"@) == Some(DELETE_MESSAGES),
        flag_named("manage_members"@) == Some(MANAGE_MEMBERS),
        flag_named("manage_slow_mode"@) == Some(MANAGE_SLOW_MODE),
        flag_named("view_ban_list"@) == Some(VIEW_BAN_LIST),
        flag_named("view_mute_list"@) == Some(VIEW_MUTE_LIST),
        flag_named("view_invite_link"@) == Some(VIEW_INVITE_LINK),
{
    lemma_name_finds_flag(0, 0);
    lemma_name_finds_flag(1, 0);
    lemma_name_finds_flag(2, 0);
    lemma_name_finds_flag(3, 0);
    lemma_name_finds_flag(4, 0);
    lemma_name_finds_flag(5, 0);
    lemma_name_finds_flag(6, 0);
    lemma_name_finds_flag(7, 0);
    lemma_name_finds_flag(8, 0);
    lemma_name_finds_flag(9, 0);
    lemma_name_finds_flag(10, 0);
    lemma_name_finds_flag(11, 0);
    lemma_name_finds_flag(12, 0);
    lemma_name_finds_flag(13, 0);
}

/// A name is a permission's if and only if it is that of one of the flags.
pub proof fn only_flags_have_names(s: Seq<char>, from: int)
    requires
        0 <= from,
    ensures
        flag_named_from(s, from) is Some <==> exists|i: int| from <= i < 14 && #[trigger] flag_name(i) == s,
        forall|i: int| from <= i < 14 && #[trigger] flag_name(i) == s ==> flag_named_from(s, from) == Some(flag(i)),
    decreases FLAG_COUNT - from,
{
    if from < FLAG_COUNT {
        only_flags_have_names(s, from + 1);
        assert forall|i: int| from <= i < 14 && #[trigger] flag_name(i) == s implies flag_named_from(s, from)
            == Some(flag(i)) by {
            lemma_name_finds_flag(i, from);
        }
    }
}

proof fn lemma_one_more_flag(bits: i64, i: int, j: int)
    requires
        0 <= i < FLAG_COUNT,
        0 <= j < FLAG_COUNT,
    ensures
        holds(bits | flag(j), flag(i)) <==> holds(bits, flag(i)) || i == j,
        !holds(0, flag(i)),
{
    let f = flag(j);
    let g = flag(i);
    assert((bits | f) & g == g <==> bits & g == g || f == g) by (bit_vector)
        requires
            f == 0x1 || f == 0x2 || f == 0x4 || f == 0x8 || f == 0x10 || f == 0x20 || f == 0x40 || f == 0x80 || f == 0x100 || f == 0x400 || f == 0x800 || f == 0x1000 || f == 0x2000 || f == 0x4000,
            g == 0x1 || g == 0x2 || g == 0x4 || g == 0x8 || g == 0x10 || g == 0x20 || g == 0x40 || g == 0x80 || g == 0x100 || g == 0x400 || g == 0x800 || g == 0x1000 || g == 0x2000 || g == 0x4000,
    ;
    assert(0i64 & g == 0) by (bit_vector);
    assert(f == g ==> i == j);
}

/// A set read from names holds the permissions that are named and no others, and
/// is refused if and only if one of the names is no permission's.
pub proof fn a_named_set_holds_what_is_named(names: Seq<Seq<char>>, i: int)
    requires
        0 <= i < 14,
    ensures
        named_set(names) matches Ok(bits) ==> (bits & flag(i) == flag(i) <==> names.contains(flag_name(i))),
        named_set(names) is Ok <==> forall|k: int|
            0 <= k < names.len() ==> flag_named(#[trigger] names[k]) is Some,
    decreases names.len(),
{
    if names.len() == 0 {
        lemma_one_more_flag(0, i, i);
    } else {
        let rest = names.drop_last();
        a_named_set_holds_what_is_named(rest, i);
        assert(names.last() == names[names.len() - 1]);
        assert forall|k: int| 0 <= k < rest.len() implies #[trigger] rest[k] == names[k] by {}
        only_flags_have_names(names.last(), 0);
        if let Ok(bits) = named_set(rest) {
            if let Some(f) = flag_named(names.last()) {
                let j = choose|j: int| 0 <= j < 14 && #[trigger] flag_name(j) == names.last();
                lemma_one_more_flag(bits, i, j);
                if rest.contains(flag_name(i)) {
                    let k = choose|k: int| 0 <= k < rest.len() && rest[k] == flag_name(i);
                    assert(names[k] == flag_name(i));
                }
                if names.contains(flag_name(i)) {
                    let k = choose|k: int| 0 <= k < names.len() && names[k] == flag_name(i);
                    if k < rest.len() {
                        assert(rest[k] == flag_name(i));
                    } else {
                        lemma_names_are_distinct(i, j);
                    }
                }
                assert forall|k: int| 0 <= k < names.len() implies flag_named(#[trigger] names[k]) is Some by {
                    if k < rest.len() {
                        assert(flag_named(rest[k]) is Some);
                    }
                }
            }
        } else {
            let k = choose|k: int| 0 <= k < rest.len() && flag_named(#[trigger] rest[k]) is None;
            assert(flag_named(names[k]) is None);
        }
    }
}

proof fn lemma_names_up_to(bits: i64, n: int, i: int)
    requires
        0 <= n <= FLAG_COUNT,
        0 <= i < FLAG_COUNT,
    ensures
        names_up_to(bits, n).contains(flag_name(i)) <==> i < n && holds(bits, flag(i)),
    decreases n,
{
    if n > 0 {
        lemma_names_up_to(bits, n - 1, i);
        let before = names_up_to(bits, n - 1);
        let now = names_up_to(bits, n);
        if before.contains(flag_name(i)) {
            let k = choose|k: int| 0 <= k < before.len() && before[k] == flag_name(i);
            assert(now[k] == flag_name(i));
        }
        if i == n - 1 && holds(bits, flag(i)) {
            assert(now.last() == flag_name(i));
        }
        if now.contains(flag_name(i)) {
            let k = choose|k: int| 0 <= k < now.len() && now[k] == flag_name(i);
            if k < before.len() {
                assert(before[k] == flag_name(i));
            } else {
                lemma_names_are_distinct(i, n - 1);
            }
        }
    }
}

/// The names of a set are those of the permissions that it holds.
pub proof fn the_names_are_those_held(bits: i64, i: int)
    requires
        0 <= i < 14,
    ensures
        names_of(bits).contains(flag_name(i)) <==> bits & flag(i) == flag(i),
{
    lemma_names_up_to(bits, FLAG_COUNT as int, i);
}

} // verus!

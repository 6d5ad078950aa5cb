//! Where things live inside the cache directory.
//!
//! The state record is kept in `state.json` directly under the cache
//! directory, and the payload of slot `i` in `slot_<i>/dlc.vmcode`, with `<i>`
//! written in decimal. A `/` is put between the directory and what follows it
//! unless the directory is empty or already ends in one.

use vstd::prelude::*;

verus! {

/// The character that stands for the digit `d`, for `d` below ten.
pub open spec fn digit_char(d: nat) -> char
    recommends
        d < 10,
{
    if d == 0 {
        '0'
    } else if d == 1 {
        '1'
    } else if d == 2 {
        '2'
    } else if d == 3 {
        '3'
    } else if d == 4 {
        '4'
    } else if d == 5 {
        '5'
    } else if d == 6 {
        '6'
    } else if d == 7 {
        '7'
    } else if d == 8 {
        '8'
    } else {
        '9'
    }
}

/// The decimal numeral of `n`: no sign, no leading zero, `0` for zero.
pub open spec fn decimal(n: nat) -> Seq<char>
    decreases n,
{
    if n < 10 {
        seq![digit_char(n)]
    } else {
        decimal(n / 10).push(digit_char(n % 10))
    }
}

/// `dir` made ready to have a relative name appended to it.
pub open spec fn directory_prefix(dir: Seq<char>) -> Seq<char> {
    if dir.len() == 0 || dir.last() == '/' {
        dir
    } else {
        dir.push('/')
    }
}

/// The name `name` inside the directory `dir`.
pub open spec fn inside(dir: Seq<char>, name: Seq<char>) -> Seq<char> {
    directory_prefix(dir) + name
}

/// The name of the directory that holds slot `index`.
pub open spec fn slot_dir_name(index: nat) -> Seq<char> {
    "slot_"@ + decimal(index)
}

/// The path of the payload file of slot `index` under `cache_dir`.
pub open spec fn slot_payload_path(cache_dir: Seq<char>, index: nat) -> Seq<char> {
    inside(inside(cache_dir, slot_dir_name(index)), "dlc.vmcode"@)
}

/// The path of the state file under `cache_dir`.
pub open spec fn state_file_path(cache_dir: Seq<char>) -> Seq<char> {
    inside(cache_dir, "state.json"@)
}

/// A numeral is never empty, and it ends in the digit of the units.
pub proof fn lemma_decimal_ends_in_units(n: nat)
    ensures
        decimal(n).len() > 0,
        decimal(n).last() == digit_char(n % 10),
        n < 10 <==> decimal(n).len() == 1,
    decreases n,
{
    if n >= 10 {
        lemma_decimal_ends_in_units(n / 10);
    }
}

/// Two numbers with the same numeral are the same number.
pub proof fn lemma_decimal_is_injective(a: nat, b: nat)
    requires
        decimal(a) == decimal(b),
    ensures
        a == b,
    decreases a,
{
    lemma_decimal_ends_in_units(a);
    lemma_decimal_ends_in_units(b);
    if a >= 10 {
        assert(decimal(a).drop_last() =~= decimal(a / 10));
        assert(decimal(b).drop_last() =~= decimal(b / 10));
        lemma_decimal_is_injective(a / 10, b / 10);
    }
}

/// The payload path of a slot, spelled out: the directory, a separator where
/// one is needed, `slot_`, the index, and `/dlc.vmcode`.
pub proof fn lemma_slot_payload_path_parts(cache_dir: Seq<char>, index: nat)
    ensures
        slot_payload_path(cache_dir, index) == directory_prefix(cache_dir) + "slot_"@ + decimal(
            index,
        ) + "/dlc.vmcode"@,
{
    reveal_strlit("slot_");
    reveal_strlit("dlc.vmcode");
    reveal_strlit("/dlc.vmcode");
    lemma_decimal_ends_in_units(index);
    let slot_dir = inside(cache_dir, slot_dir_name(index));
    assert(slot_dir.last() == decimal(index).last());
    assert(slot_payload_path(cache_dir, index) =~= directory_prefix(cache_dir) + "slot_"@
        + decimal(index) + "/dlc.vmcode"@);
}

/// Different slots keep their payloads in different files, so an install into
/// one slot never overwrites the payload of another.
pub proof fn lemma_slots_have_distinct_files(cache_dir: Seq<char>, first: nat, second: nat)
    requires
        first != second,
    ensures
        slot_payload_path(cache_dir, first) != slot_payload_path(cache_dir, second),
{
    lemma_slot_payload_path_parts(cache_dir, first);
    lemma_slot_payload_path_parts(cache_dir, second);
    let head = directory_prefix(cache_dir) + "slot_"@;
    let tail = "/dlc.vmcode"@;
    let one = head + decimal(first) + tail;
    let other = head + decimal(second) + tail;
    if one == other {
        assert(decimal(first).len() == decimal(second).len()) by {
            assert(one.len() == other.len());
        }
        assert forall|k: int| 0 <= k < decimal(first).len() implies decimal(first)[k] == decimal(
            second,
        )[k] by {
            assert(one[head.len() + k] == decimal(first)[k]);
            assert(other[head.len() + k] == decimal(second)[k]);
        }
        assert(decimal(first) =~= decimal(second));
        lemma_decimal_is_injective(first, second);
    }
}

/// No slot keeps its payload in the state file, so an install never
/// overwrites the state record.
pub proof fn lemma_state_file_is_no_payload(cache_dir: Seq<char>, index: nat)
    ensures
        slot_payload_path(cache_dir, index) != state_file_path(cache_dir),
{
    lemma_slot_payload_path_parts(cache_dir, index);
    reveal_strlit("slot_");
    reveal_strlit("state.json");
    let head = directory_prefix(cache_dir);
    let payload = head + "slot_"@ + decimal(index) + "/dlc.vmcode"@;
    let state = head + "state.json"@;
    assert(payload[head.len() as int + 1] == 'l');
    assert(state[head.len() as int + 1] == 't');
}

fn digit_str(d: usize) -> (s: &'static str)
    requires
        d < 10,
    ensures
        s@ == seq![digit_char(d as nat)],
{
    proof {
        reveal_strlit("0");
        reveal_strlit("1");
        reveal_strlit("2");
        reveal_strlit("3");
        reveal_strlit("4");
        reveal_strlit("5");
        reveal_strlit("6");
        reveal_strlit("7");
        reveal_strlit("8");
        reveal_strlit("9");
    }
    let s = if d == 0 {
        "0"
    } else if d == 1 {
        "1"
    } else if d == 2 {
        "2"
    } else if d == 3 {
        "3"
    } else if d == 4 {
        "4"
    } else if d == 5 {
        "5"
    } else if d == 6 {
        "6"
    } else if d == 7 {
        "7"
    } else if d == 8 {
        "8"
    } else {
        "9"
    };
    assert(s@ =~= seq![digit_char(d as nat)]);
    s
}

/// Writes `n` in decimal.
pub fn decimal_string(n: usize) -> (s: String)
    ensures
        s@ == decimal(n as nat),
    decreases n,
{
    if n < 10 {
        digit_str(n).to_owned()
    } else {
        let mut s = decimal_string(n / 10);
        s.append(digit_str(n % 10));
        s
    }
}

/// Names `name` inside the directory `dir`.
pub fn path_inside(dir: &str, name: &str) -> (path: String)
    ensures
        path@ == inside(dir@, name@),
{
    let mut path = dir.to_owned();
    let len = dir.unicode_len();
    if len > 0 && dir.get_char(len - 1) != '/' {
        proof {
            reveal_strlit("/");
        }
        path.append("/");
    }
    path.append(name);
    path
}

/// Computes where the payload of slot `slot_index` is stored under
/// `cache_dir`.
pub fn slot_payload_file(cache_dir: &str, slot_index: usize) -> (path: String)
    ensures
        path@ == slot_payload_path(cache_dir@, slot_index as nat),
{
    let mut name = "slot_".to_owned();
    let digits = decimal_string(slot_index);
    name.append(digits.as_str());
    let slot_dir = path_inside(cache_dir, name.as_str());
    path_inside(slot_dir.as_str(), "dlc.vmcode")
}

/// Computes where the state record is stored under `cache_dir`.
pub fn state_file(cache_dir: &str) -> (path: String)
    ensures
        path@ == state_file_path(cache_dir@),
{
    path_inside(cache_dir, "state.json")
}

} // verus!

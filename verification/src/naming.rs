//! Where a process keeps its backing store.
//!
//! The store of a process is a directory directly under the RAM-backed mount,
//! named by a fixed prefix followed by the process identifier in decimal.

use vstd::prelude::*;
use vstd::string::*;

verus! {

/// The path at which the host mounts its RAM-backed filesystem.
pub const RAM_MOUNT: &'static str = "/dev/shm";

/// The prefix shared by the names of all backing stores.
pub const STORE_PREFIX: &'static str = "angora_tmp_";

/// The character that stands for the digit `d`.
pub open spec fn digit_char(d: nat) -> char
    recommends
        d < 10,
{
    ('0' as nat + d) as char
}

/// The decimal numeral of `n`: most significant digit first, no sign, and no
/// leading zero except for zero itself.
pub open spec fn decimal(n: nat) -> Seq<char>
    decreases n,
{
    if n < 10 {
        seq![digit_char(n)]
    } else {
        decimal(n / 10).push(digit_char(n % 10))
    }
}

/// The number that a string of decimal digits stands for.
pub open spec fn numeral_value(digits: Seq<char>) -> nat
    decreases digits.len(),
{
    if digits.len() == 0 {
        0
    } else {
        (numeral_value(digits.drop_last()) * 10 + (digits.last() as nat - '0' as nat)) as nat
    }
}

/// The name of the backing store of process `pid`: the prefix, then the
/// identifier in decimal.
pub open spec fn store_name(pid: nat) -> Seq<char> {
    STORE_PREFIX@ + decimal(pid)
}

/// The path of the backing store of process `pid`: an entry of the
/// RAM-backed mount, under the store's name.
pub open spec fn store_path(pid: nat) -> Seq<char> {
    RAM_MOUNT@ + seq!['/'] + store_name(pid)
}

/// The one-character string of a single digit.
fn digit_str(d: u64) -> (s: &'static str)
    requires
        d < 10,
    ensures
        s@ == seq![digit_char(d as nat)],
{
    proof {
        reveal_strlit("0");
        reveal_strlit("1");
        reveal_strlit("2");
        reveal_strlit("3");
        reveal_strlit("4");
        reveal_strlit("5");
        reveal_strlit("6");
        reveal_strlit("7");
        reveal_strlit("8");
        reveal_strlit("9");
    }
    let s: &'static str = if d == 0 {
        "0"
    } else if d == 1 {
        "1"
    } else if d == 2 {
        "2"
    } else if d == 3 {
        "3"
    } else if d == 4 {
        "4"
    } else if d == 5 {
        "5"
    } else if d == 6 {
        "6"
    } else if d == 7 {
        "7"
    } else if d == 8 {
        "8"
    } else {
        "9"
    };
    s
}

/// Writes `n` in decimal.
pub fn decimal_string(n: u64) -> (s: String)
    ensures
        s@ == decimal(n as nat),
    decreases n,
{
    if n < 10 {
        String::from_str(digit_str(n))
    } else {
        let mut s = decimal_string(n / 10);
        s.append(digit_str(n % 10));
        s
    }
}

/// The name of the backing store of process `pid`.
pub fn backing_store_name(pid: u64) -> (name: String)
    ensures
        name@ == store_name(pid as nat),
{
    let mut name = String::from_str(STORE_PREFIX);
    let digits = decimal_string(pid);
    name.append(digits.as_str());
    name
}

/// The path of the backing store of process `pid`.
pub fn backing_store_path(pid: u64) -> (path: String)
    ensures
        path@ == store_path(pid as nat),
{
    let mut path = String::from_str(RAM_MOUNT);
    path.append("/");
    proof {
        reveal_strlit("/");
    }
    let name = backing_store_name(pid);
    path.append(name.as_str());
    path
}

/// A decimal numeral is never empty and holds nothing but digits.
pub proof fn decimal_holds_digits(n: nat)
    ensures
        decimal(n).len() >= 1,
        forall|i: int|
            0 <= i < decimal(n).len() ==> '0' as nat <= #[trigger] decimal(n)[i] as nat
                <= '9' as nat,
    decreases n,
{
    if n >= 10 {
        decimal_holds_digits(n / 10);
    }
}

/// The identifier can be read back from its numeral.
pub proof fn decimal_reads_back(n: nat)
    ensures
        numeral_value(decimal(n)) == n,
    decreases n,
{
    if n < 10 {
        assert(decimal(n).drop_last() =~= Seq::<char>::empty());
        assert(numeral_value(Seq::<char>::empty()) == 0);
    } else {
        decimal_reads_back(n / 10);
        assert(decimal(n).drop_last() =~= decimal(n / 10));
    }
}

/// The name of a store is one path component: it is not empty and holds no
/// separator, so every store is an entry of the mount itself and none lies
/// inside another.
pub proof fn store_name_is_one_component(pid: nat)
    ensures
        store_name(pid).len() > 0,
        !store_name(pid).contains('/'),
{
    reveal_strlit("angora_tmp_");
    decimal_holds_digits(pid);
    let name = store_name(pid);
    assert forall|i: int| 0 <= i < name.len() implies name[i] != '/' by {}
}

/// Two processes never share a store: different identifiers give different
/// names and different paths, and neither store lies inside the other.
pub proof fn stores_of_two_processes_differ(one: nat, other: nat)
    requires
        one != other,
    ensures
        store_name(one) != store_name(other),
        store_path(one) != store_path(other),
        !(store_path(one) + seq!['/']).is_prefix_of(store_path(other)),
{
    decimal_reads_back(one);
    decimal_reads_back(other);
    let prefix = STORE_PREFIX@;
    let head = RAM_MOUNT@ + seq!['/'];
    assert(store_name(one).subrange(prefix.len() as int, store_name(one).len() as int)
        =~= decimal(one));
    assert(store_name(other).subrange(prefix.len() as int, store_name(other).len() as int)
        =~= decimal(other));
    assert(store_path(one).subrange(head.len() as int, store_path(one).len() as int)
        =~= store_name(one));
    assert(store_path(other).subrange(head.len() as int, store_path(other).len() as int)
        =~= store_name(other));
    let inside = store_path(one) + seq!['/'];
    if inside.is_prefix_of(store_path(other)) {
        let at = store_path(one).len() as int;
        store_name_is_one_component(other);
        assert(store_path(other).subrange(0, inside.len() as int)[at] == store_path(other)[at]);
    }
}

} // verus!

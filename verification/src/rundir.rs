//! How run directories are named: the directory of a user's brokers is
//! `/run/user/<uid>/vaccel`, and the directory of a session is
//! `session.<id>` below the root run directory of its broker, with the
//! numbers in decimal.
use vstd::prelude::*;
use vstd::string::*;

verus! {

/// The character of the decimal digit `d`.
pub open spec fn digit_char(d: nat) -> char
    recommends
        d < 10,
{
    if d == 0 {
        '0'
    } else if d == 1 {
        '1'
    } else if d == 2 {
        '2'
    } else if d == 3 {
        '3'
    } else if d == 4 {
        '4'
    } else if d == 5 {
        '5'
    } else if d == 6 {
        '6'
    } else if d == 7 {
        '7'
    } else if d == 8 {
        '8'
    } else {
        '9'
    }
}

/// `n` written in decimal, without leading zeros.
pub open spec fn decimal(n: nat) -> Seq<char>
    decreases n,
{
    if n < 10 {
        seq![digit_char(n)]
    } else {
        decimal(n / 10).push(digit_char(n % 10))
    }
}

/// The directory below which the brokers of the user `uid` keep their run
/// directories.
pub open spec fn user_rundir(uid: u32) -> Seq<char> {
    "/run/user/"@ + decimal(uid as nat) + "/vaccel"@
}

/// The name of the run directory of the session `id`.
pub open spec fn session_dir_name(id: u64) -> Seq<char> {
    "session."@ + decimal(id as nat)
}

/// `component` below the directory `base`: a separator stands between the
/// two unless `base` is empty or ends in one.
pub open spec fn joined(base: Seq<char>, component: Seq<char>) -> Seq<char> {
    if base.len() > 0 && base.last() != '/' {
        base.push('/') + component
    } else {
        base + component
    }
}

/// The run directory of the session `id` of a broker whose root run
/// directory is `root`.
pub open spec fn session_rundir(root: Seq<char>, id: u64) -> Seq<char> {
    joined(root, session_dir_name(id))
}

/// The decimal digit `d` as a string.
fn digit_str(d: u64) -> (r: &'static str)
    requires
        d < 10,
    ensures
        r@ == seq![digit_char(d as nat)],
{
    proof {
        reveal_strlit("0");
        reveal_strlit("1");
        reveal_strlit("2");
        reveal_strlit("3");
        reveal_strlit("4");
        reveal_strlit("5");
        reveal_strlit("6");
        reveal_strlit("7");
        reveal_strlit("8");
        reveal_strlit("9");
    }
    let r = if d == 0 {
        "0"
    } else if d == 1 {
        "1"
    } else if d == 2 {
        "2"
    } else if d == 3 {
        "3"
    } else if d == 4 {
        "4"
    } else if d == 5 {
        "5"
    } else if d == 6 {
        "6"
    } else if d == 7 {
        "7"
    } else if d == 8 {
        "8"
    } else {
        "9"
    };
    assert(r@ =~= seq![digit_char(d as nat)]);
    r
}

/// Appends `n` in decimal to `text`.
pub fn push_decimal(text: &mut String, n: u64)
    ensures
        final(text)@ == old(text)@ + decimal(n as nat),
    decreases n,
{
    if n >= 10 {
        push_decimal(text, n / 10);
    }
    text.append(digit_str(n % 10));
    proof {
        if n >= 10 {
            assert(text@ =~= old(text)@ + decimal(n as nat / 10).push(digit_char(n as nat % 10)));
        } else {
            assert(text@ =~= old(text)@ + seq![digit_char(n as nat)]);
        }
    }
}

/// The path of `component` below the directory `base`.
pub fn join(base: &str, component: &str) -> (r: String)
    ensures
        r@ == joined(base@, component@),
{
    let mut path = base.to_owned();
    let len = base.unicode_len();
    if len > 0 && base.get_char(len - 1) != '/' {
        proof {
            reveal_strlit("/");
        }
        path.append("/");
        assert(path@ =~= base@.push('/'));
    }
    path.append(component);
    path
}

/// The path of the directory below which the brokers of the user `uid` keep
/// their run directories.
pub fn vaccel_path(uid: u32) -> (r: String)
    ensures
        r@ == user_rundir(uid),
{
    let mut path = "/run/user/".to_owned();
    push_decimal(&mut path, uid as u64);
    path.append("/vaccel");
    path
}

/// The path of the run directory of the session `id` below `root`.
pub fn session_path(root: &str, id: u64) -> (r: String)
    ensures
        r@ == session_rundir(root@, id),
{
    let mut name = "session.".to_owned();
    push_decimal(&mut name, id);
    join(root, name.as_str())
}

/// The number that the decimal digits `text` stand for.
pub open spec fn decimal_value(text: Seq<char>) -> nat
    decreases text.len(),
{
    if text.len() == 0 {
        0
    } else {
        decimal_value(text.drop_last()) * 10 + if text.last() == '1' {
            1nat
        } else if text.last() == '2' {
            2nat
        } else if text.last() == '3' {
            3nat
        } else if text.last() == '4' {
            4nat
        } else if text.last() == '5' {
            5nat
        } else if text.last() == '6' {
            6nat
        } else if text.last() == '7' {
            7nat
        } else if text.last() == '8' {
            8nat
        } else if text.last() == '9' {
            9nat
        } else {
            0nat
        }
    }
}

/// A number is read back from its decimal form.
pub proof fn decimal_reads_back(n: nat)
    ensures
        decimal_value(decimal(n)) == n,
    decreases n,
{
    if n < 10 {
        assert(decimal(n).drop_last() =~= Seq::<char>::empty());
        assert(decimal_value(decimal(n).drop_last()) == 0);
    } else {
        decimal_reads_back(n / 10);
        assert(decimal(n).drop_last() =~= decimal(n / 10));
    }
}

/// Sessions with different ids have different run directories below one
/// root.
pub proof fn session_rundirs_differ(root: Seq<char>, first: u64, second: u64)
    requires
        first != second,
    ensures
        session_rundir(root, first) != session_rundir(root, second),
{
    let a = session_dir_name(first);
    let b = session_dir_name(second);
    if session_rundir(root, first) == session_rundir(root, second) {
        let base = if root.len() > 0 && root.last() != '/' {
            root.push('/')
        } else {
            root
        };
        assert(joined(root, a) == base + a);
        assert(joined(root, b) == base + b);
        assert((base + a).subrange(base.len() as int, (base + a).len() as int) =~= a);
        assert((base + b).subrange(base.len() as int, (base + b).len() as int) =~= b);
        let prefix = "session."@;
        assert(a.subrange(prefix.len() as int, a.len() as int) =~= decimal(first as nat));
        assert(b.subrange(prefix.len() as int, b.len() as int) =~= decimal(second as nat));
        decimal_reads_back(first as nat);
        decimal_reads_back(second as nat);
        assert(first == second);
    }
}

} // verus!

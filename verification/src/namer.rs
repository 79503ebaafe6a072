//! Deterministic naming of index shards.
//!
//! Every component that addresses a shard derives its backend collection name
//! here, from the owning application's id, the deployment's logical index
//! name, and the shard number.  The name is a pure function of those inputs,
//! so the name used when a shard is provisioned and the name used when it is
//! torn down can never drift apart; and for a fixed logical name it is
//! injective over `(application id, shard number)`, so two applications (or
//! two shards of one application) can never collide on one backend
//! collection.

use vstd::prelude::*;

verus! {

/// The character standing for the decimal digit `d`.
pub open spec fn digit_char(d: nat) -> char {
    if d == 0 {
        '0'
    } else if d == 1 {
        '1'
    } else if d == 2 {
        '2'
    } else if d == 3 {
        '3'
    } else if d == 4 {
        '4'
    } else if d == 5 {
        '5'
    } else if d == 6 {
        '6'
    } else if d == 7 {
        '7'
    } else if d == 8 {
        '8'
    } else {
        '9'
    }
}

/// True of the ten decimal digit characters.
pub open spec fn is_digit_char(c: char) -> bool {
    c == '0' || c == '1' || c == '2' || c == '3' || c == '4' || c == '5' || c == '6' || c == '7'
        || c == '8' || c == '9'
}

/// The usual decimal rendering of `n`: no sign, no leading zero except for
/// `n == 0` itself.
pub open spec fn dec_rep(n: nat) -> Seq<char>
    decreases n,
{
    if n < 10 {
        seq![digit_char(n)]
    } else {
        dec_rep((n / 10) as nat).push(digit_char(n % 10))
    }
}

/// A character that a generated application id may contain: ASCII letters,
/// digits, `-` and `_`.  The separator of the shard-name scheme is excluded,
/// which is what makes the scheme injective.
pub open spec fn id_char(c: char) -> bool {
    (97 <= c as u32 && c as u32 <= 122)  // 'a'..='z'
     || (65 <= c as u32 && c as u32 <= 90)  // 'A'..='Z'
     || (48 <= c as u32 && c as u32 <= 57)  // '0'..='9'
     || c == '-' || c == '_'
}

/// A well-formed generated application id: non-empty, made of `id_char`s.
pub open spec fn valid_app_id(s: Seq<char>) -> bool {
    s.len() > 0 && forall|i: int| 0 <= i < s.len() ==> id_char(#[trigger] s[i])
}

/// The backend collection name of one shard:
/// `<application id> "." <logical name> "." <shard number in decimal>`.
pub open spec fn shard_name(app_id: Seq<char>, logical_name: Seq<char>, shard: nat) -> Seq<char> {
    app_id + seq!['.'] + logical_name + seq!['.'] + dec_rep(shard)
}

/// Checks that `s` is a well-formed generated application id.
pub fn is_valid_app_id(s: &str) -> (r: bool)
    ensures
        r == valid_app_id(s@),
{
    let n = s.unicode_len();
    if n == 0 {
        return false;
    }
    let mut i: usize = 0;
    while i < n
        invariant
            n == s@.len(),
            0 < n,
            i <= n,
            forall|k: int| 0 <= k < i ==> id_char(#[trigger] s@[k]),
        decreases n - i,
    {
        let c = s.get_char(i);
        let u = c as u32;
        let ok = (97 <= u && u <= 122) || (65 <= u && u <= 90) || (48 <= u && u <= 57) || c == '-'
            || c == '_';
        if !ok {
            return false;
        }
        i = i + 1;
    }
    true
}

/// The one-character string holding the digit `d`.
fn digit_str(d: u64) -> (r: &'static str)
    requires
        d < 10,
    ensures
        r@ == seq![digit_char(d as nat)],
{
    proof {
        reveal_strlit("0");
        reveal_strlit("1");
        reveal_strlit("2");
        reveal_strlit("3");
        reveal_strlit("4");
        reveal_strlit("5");
        reveal_strlit("6");
        reveal_strlit("7");
        reveal_strlit("8");
        reveal_strlit("9");
    }
    let r: &'static str = if d == 0 {
        "0"
    } else if d == 1 {
        "1"
    } else if d == 2 {
        "2"
    } else if d == 3 {
        "3"
    } else if d == 4 {
        "4"
    } else if d == 5 {
        "5"
    } else if d == 6 {
        "6"
    } else if d == 7 {
        "7"
    } else if d == 8 {
        "8"
    } else {
        "9"
    };
    proof {
        assert(r@ =~= seq![digit_char(d as nat)]);
    }
    r
}

/// Renders `n` in decimal.
pub fn u64_to_dec(n: u64) -> (r: String)
    ensures
        r@ == dec_rep(n as nat),
    decreases n,
{
    if n < 10 {
        digit_str(n).to_owned()
    } else {
        let prefix = u64_to_dec(n / 10);
        let r = prefix.concat(digit_str(n % 10));
        proof {
            assert(r@ =~= dec_rep(n as nat));
        }
        r
    }
}

/// Derives the backend collection name of one shard.  Pure: the same inputs
/// always give the same name, across calls and across process restarts.
pub fn build_shard_name(application_id: &str, logical_name: &str, shard_number: u64) -> (r: String)
    ensures
        r@ == shard_name(application_id@, logical_name@, shard_number as nat),
{
    proof {
        reveal_strlit(".");
    }
    let mut r = application_id.to_owned();
    r.append(".");
    r.append(logical_name);
    r.append(".");
    let dec = u64_to_dec(shard_number);
    r.append(dec.as_str());
    proof {
        assert(r@ =~= shard_name(application_id@, logical_name@, shard_number as nat));
    }
    r
}

/// The character of digit `d` has code `48 + d`, so distinct digits render
/// as distinct characters.
pub proof fn lemma_digit_char_value(d: nat)
    requires
        d < 10,
    ensures
        digit_char(d) as u32 == 48 + d,
{
}

/// Every character of a decimal rendering is a digit, and the rendering is
/// never empty.
pub proof fn lemma_dec_rep_digits(n: nat)
    ensures
        dec_rep(n).len() >= 1,
        forall|i: int| 0 <= i < dec_rep(n).len() ==> is_digit_char(#[trigger] dec_rep(n)[i]),
    decreases n,
{
    if n >= 10 {
        lemma_dec_rep_digits((n / 10) as nat);
    }
}

/// Two numbers with the same decimal rendering are the same number.
pub proof fn lemma_dec_rep_injective(a: nat, b: nat)
    requires
        dec_rep(a) == dec_rep(b),
    ensures
        a == b,
    decreases a,
{
    lemma_dec_rep_digits(a);
    lemma_dec_rep_digits(b);
    if a < 10 && b < 10 {
        assert(dec_rep(a) == seq![digit_char(a)]);
        assert(dec_rep(b) == seq![digit_char(b)]);
        assert(seq![digit_char(a)][0] == digit_char(a));
        assert(seq![digit_char(b)][0] == digit_char(b));
        assert(digit_char(a) == digit_char(b));
        lemma_digit_char_value(a);
        lemma_digit_char_value(b);
        assert(digit_char(a) as u32 == digit_char(b) as u32);
    } else if a < 10 {
        lemma_dec_rep_digits((b / 10) as nat);
        assert(dec_rep(b).len() >= 2);
        assert(false);
    } else if b < 10 {
        lemma_dec_rep_digits((a / 10) as nat);
        assert(dec_rep(a).len() >= 2);
        assert(false);
    } else {
        assert(dec_rep(a) == dec_rep((a / 10) as nat).push(digit_char(a % 10)));
        assert(dec_rep(b) == dec_rep((b / 10) as nat).push(digit_char(b % 10)));
        assert(dec_rep(a).last() == digit_char(a % 10));
        assert(dec_rep(b).last() == digit_char(b % 10));
        assert(dec_rep(a).last() == dec_rep(b).last());
        assert(digit_char((a % 10) as nat) == digit_char((b % 10) as nat));
        lemma_digit_char_value((a % 10) as nat);
        lemma_digit_char_value((b % 10) as nat);
        assert(a % 10 == b % 10);
        assert(dec_rep(a).drop_last() =~= dec_rep((a / 10) as nat));
        assert(dec_rep(b).drop_last() =~= dec_rep((b / 10) as nat));
        lemma_dec_rep_injective((a / 10) as nat, (b / 10) as nat);
        vstd::arithmetic::div_mod::lemma_fundamental_div_mod(a as int, 10);
        vstd::arithmetic::div_mod::lemma_fundamental_div_mod(b as int, 10);
        assert(a as int == 10 * ((a as int) / 10) + (a as int) % 10);
        assert((a as int) / 10 == ((a / 10) as nat) as int);
        assert((a as int) % 10 == (a % 10) as int);
        assert(b as int == 10 * ((b as int) / 10) + (b as int) % 10);
        assert((b as int) / 10 == ((b / 10) as nat) as int);
        assert((b as int) % 10 == (b % 10) as int);
    }
}

/// The shard-naming scheme is injective over `(application id, shard number)`
/// for a fixed logical name: two well-formed applications (or two shards of
/// one application) never share a backend collection name.
pub proof fn lemma_shard_name_injective(
    app1: Seq<char>,
    app2: Seq<char>,
    logical: Seq<char>,
    n1: nat,
    n2: nat,
)
    requires
        valid_app_id(app1),
        valid_app_id(app2),
        shard_name(app1, logical, n1) == shard_name(app2, logical, n2),
    ensures
        app1 == app2,
        n1 == n2,
{
    let s = shard_name(app1, logical, n1);
    let l1 = app1.len() as int;
    let l2 = app2.len() as int;
    assert(forall|i: int| 0 <= i < l1 ==> s[i] == app1[i]);
    assert(forall|i: int| 0 <= i < l2 ==> s[i] == app2[i]);
    assert(s[l1] == '.');
    assert(s[l2] == '.');
    assert(forall|c: char| id_char(c) ==> c != '.');
    if l1 < l2 {
        assert(id_char(app2[l1]));
        assert(false);
    }
    if l2 < l1 {
        assert(id_char(app1[l2]));
        assert(false);
    }
    assert(app1 =~= app2);
    let tail1 = dec_rep(n1);
    let tail2 = dec_rep(n2);
    let off = l1 + 1 + logical.len() as int + 1;
    assert(s.len() == off + tail1.len());
    assert(shard_name(app2, logical, n2).len() == off + tail2.len());
    assert(tail1.len() == tail2.len());
    assert(forall|i: int| 0 <= i < tail1.len() ==> s[off + i] == tail1[i]);
    assert(forall|i: int|
        0 <= i < tail2.len() ==> shard_name(app2, logical, n2)[off + i] == tail2[i]);
    assert(tail1 =~= tail2);
    lemma_dec_rep_injective(n1, n2);
}

} // verus!

//! Storage locations: every image lives in `/root/image/<type>/<id>/<name>`.
use vstd::prelude::*;

verus! {

/// The character of a decimal digit `d < 10`.
pub open spec fn digit_char(d: nat) -> char {
    (d + 48) as char
}

/// Whether `c` is one of `'0'..='9'`.
pub open spec fn is_digit(c: char) -> bool {
    '0' <= c <= '9'
}

/// The decimal notation of `n`, without sign or leading zeros.
pub open spec fn decimal(n: nat) -> Seq<char>
    decreases n,
{
    if n < 10 {
        seq![digit_char(n)]
    } else {
        decimal(n / 10).push(digit_char(n % 10))
    }
}

/// The number that a string of decimal digits denotes.
pub open spec fn decimal_value(s: Seq<char>) -> nat
    decreases s.len(),
{
    if s.len() == 0 {
        0
    } else {
        decimal_value(s.drop_last()) * 10 + ((s.last() as nat) - 48) as nat
    }
}

/// The root under which all images are stored.
pub open spec fn image_root() -> Seq<char> {
    "/root/image/"@
}

/// The directory of the images of one `dir_type` and `dir_id`.
pub open spec fn dir_path_of(dir_type: Seq<char>, dir_id: nat) -> Seq<char> {
    image_root() + dir_type + "/"@ + decimal(dir_id)
}

/// The path of the file `name` inside the directory `dir`.
pub open spec fn file_path_of(dir: Seq<char>, name: Seq<char>) -> Seq<char> {
    dir + "/"@ + name
}

/// The decimal notation is made of digits, has no leading zero, and
/// denotes the number it was made from.
pub proof fn law_decimal_round_trip(n: nat)
    ensures
        decimal_value(decimal(n)) == n,
        decimal(n).len() >= 1,
        forall|i: int| 0 <= i < decimal(n).len() ==> is_digit(#[trigger] decimal(n)[i]),
        decimal(n)[0] == '0' ==> n == 0,
    decreases n,
{
    if n < 10 {
        let s = decimal(n);
        assert(s.drop_last() =~= Seq::<char>::empty());
        assert((digit_char(n) as nat) == n + 48);
        assert(decimal_value(s.drop_last()) == 0);
        assert(decimal_value(s) == n);
    } else {
        law_decimal_round_trip(n / 10);
        let p = decimal(n / 10);
        let s = p.push(digit_char(n % 10));
        assert(s.drop_last() =~= p);
        assert((digit_char(n % 10) as nat) == n % 10 + 48);
        assert((n / 10) * 10 + n % 10 == n);
        assert(decimal_value(s) == decimal_value(p) * 10 + n % 10);
        assert(s[0] == p[0]);
        assert forall|i: int| 0 <= i < s.len() implies is_digit(#[trigger] s[i]) by {
            if i < p.len() {
                assert(s[i] == p[i]);
            }
        }
    }
}

/// Different numbers have different decimal notations.
pub proof fn law_decimal_injective(a: nat, b: nat)
    requires
        decimal(a) == decimal(b),
    ensures
        a == b,
{
    law_decimal_round_trip(a);
    law_decimal_round_trip(b);
}

/// Different ids of one type are stored in different directories.
pub proof fn law_dir_path_injective(dir_type: Seq<char>, a: nat, b: nat)
    requires
        dir_path_of(dir_type, a) == dir_path_of(dir_type, b),
    ensures
        a == b,
{
    let p = image_root() + dir_type + "/"@;
    let sa = dir_path_of(dir_type, a);
    assert(sa.subrange(p.len() as int, sa.len() as int) =~= decimal(a));
    let sb = dir_path_of(dir_type, b);
    assert(sb.subrange(p.len() as int, sb.len() as int) =~= decimal(b));
    law_decimal_injective(a, b);
}

/// Every file path built from a storage directory lies under the image
/// root and ends in `/` followed by the file name.
pub proof fn law_file_path_under_root(dir_type: Seq<char>, dir_id: nat, name: Seq<char>)
    ensures
        ({
            let p = file_path_of(dir_path_of(dir_type, dir_id), name);
            &&& p.subrange(0, image_root().len() as int) == image_root()
            &&& p.subrange(p.len() - name.len() - 1, p.len() as int) == "/"@ + name
        }),
{
    reveal_strlit("/root/image/");
    reveal_strlit("/");
    let p = file_path_of(dir_path_of(dir_type, dir_id), name);
    assert(p.subrange(0, image_root().len() as int) =~= image_root());
    assert(p.subrange(p.len() - name.len() - 1, p.len() as int) =~= "/"@ + name);
}

/// The storage directory of `dir_type` and `dir_id` is `/root/image/`, the
/// type, `/`, then a string of digits without leading zero whose value is
/// `dir_id`.
pub proof fn law_dir_path_ends_in_id(dir_type: Seq<char>, dir_id: nat)
    ensures
        ({
            let p = dir_path_of(dir_type, dir_id);
            let k = image_root().len() + dir_type.len() + 1;
            let c = p.subrange(k as int, p.len() as int);
            &&& k < p.len()
            &&& p.subrange(0, k as int) == "/root/image/"@ + dir_type + "/"@
            &&& forall|i: int| 0 <= i < c.len() ==> is_digit(#[trigger] c[i])
            &&& c[0] == '0' ==> c.len() == 1
            &&& decimal_value(c) == dir_id
        }),
{
    law_decimal_round_trip(dir_id);
    let p = dir_path_of(dir_type, dir_id);
    let k = image_root().len() + dir_type.len() + 1;
    reveal_strlit("/");
    assert(p.subrange(k as int, p.len() as int) =~= decimal(dir_id));
    assert(p.subrange(0, k as int) =~= "/root/image/"@ + dir_type + "/"@);
}

/// A stored file lies directly in its directory: its path is the directory,
/// one `/`, then the name, and nothing else.
pub proof fn law_file_path_is_dir_slash_name(dir: Seq<char>, name: Seq<char>)
    ensures
        ({
            let p = file_path_of(dir, name);
            &&& p.len() == dir.len() + 1 + name.len()
            &&& p.subrange(0, dir.len() as int) == dir
            &&& p[dir.len() as int] == '/'
            &&& p.subrange(dir.len() + 1int, p.len() as int) == name
        }),
{
    reveal_strlit("/");
    let p = file_path_of(dir, name);
    assert(p.subrange(0, dir.len() as int) =~= dir);
    assert(p.subrange(dir.len() + 1int, p.len() as int) =~= name);
}

/// The one-character string of a decimal digit.
fn digit_str(d: u64) -> (s: &'static str)
    requires
        d < 10,
    ensures
        s@ == seq![digit_char(d as nat)],
{
    if d == 0 {
        proof { reveal_strlit("0"); }
        "0"
    } else if d == 1 {
        proof { reveal_strlit("1"); }
        "1"
    } else if d == 2 {
        proof { reveal_strlit("2"); }
        "2"
    } else if d == 3 {
        proof { reveal_strlit("3"); }
        "3"
    } else if d == 4 {
        proof { reveal_strlit("4"); }
        "4"
    } else if d == 5 {
        proof { reveal_strlit("5"); }
        "5"
    } else if d == 6 {
        proof { reveal_strlit("6"); }
        "6"
    } else if d == 7 {
        proof { reveal_strlit("7"); }
        "7"
    } else if d == 8 {
        proof { reveal_strlit("8"); }
        "8"
    } else {
        proof { reveal_strlit("9"); }
        "9"
    }
}

/// The decimal notation of `n` (what `n.to_string()` gives).
pub fn decimal_string(n: u64) -> (s: String)
    ensures
        s@ == decimal(n as nat),
{
    let mut digits: Vec<u64> = Vec::new();
    let mut m: u64 = n;
    while m >= 10
        invariant
            decimal(n as nat) == decimal(m as nat) + digits@.map_values(|d: u64| digit_char(d as nat)),
            forall|i: int| 0 <= i < digits.len() ==> digits@[i] < 10,
        decreases m,
    {
        let ghost old_digits = digits@;
        digits.insert(0, m % 10);
        proof {
            assert(digits@.map_values(|d: u64| digit_char(d as nat)) =~= seq![digit_char((m % 10) as nat)]
                + old_digits.map_values(|d: u64| digit_char(d as nat)));
        }
        m = m / 10;
    }
    let ghost old_digits = digits@;
    digits.insert(0, m);
    assert(digits@.map_values(|d: u64| digit_char(d as nat)) =~= seq![digit_char(m as nat)]
        + old_digits.map_values(|d: u64| digit_char(d as nat)));
    let mut s = String::new();
    for i in 0..digits.len()
        invariant
            forall|j: int| 0 <= j < digits.len() ==> digits@[j] < 10,
            s@ == digits@.map_values(|d: u64| digit_char(d as nat)).subrange(0, i as int),
    {
        s.append(digit_str(digits[i]));
        assert(s@ =~= digits@.map_values(|d: u64| digit_char(d as nat)).subrange(0, i + 1));
    }
    assert(s@ =~= digits@.map_values(|d: u64| digit_char(d as nat)));
    s
}

/// The storage directory `/root/image/<dir_type>/<dir_id>`.
pub fn dir_path(dir_type: &str, dir_id: u64) -> (p: String)
    ensures
        p@ == dir_path_of(dir_type@, dir_id as nat),
{
    let mut p = String::from_str("/root/image/");
    p.append(dir_type);
    p.append("/");
    let id = decimal_string(dir_id);
    p.append(id.as_str());
    p
}

/// The path `<dir>/<name>`.
pub fn file_path(dir: &str, name: &str) -> (p: String)
    ensures
        p@ == file_path_of(dir@, name@),
{
    let mut p = String::from_str(dir);
    p.append("/");
    p.append(name);
    p
}

} // verus!

use vstd::prelude::*;

verus! {

/// The character that writes the decimal digit `d`.
pub open spec fn digit_char(d: nat) -> char {
    if d == 0 {
        '0'
    } else if d == 1 {
        '1'
    } else if d == 2 {
        '2'
    } else if d == 3 {
        '3'
    } else if d == 4 {
        '4'
    } else if d == 5 {
        '5'
    } else if d == 6 {
        '6'
    } else if d == 7 {
        '7'
    } else if d == 8 {
        '8'
    } else {
        '9'
    }
}

/// The decimal digits of `n`, most significant first, with no leading zero.
pub open spec fn decimal_digits(n: nat) -> Seq<char>
    decreases n,
{
    if n < 10 {
        seq![digit_char(n)]
    } else {
        decimal_digits(n / 10).push(digit_char(n % 10))
    }
}

/// The decimal text of an integer: a minus sign before the digits of a negative one.
pub open spec fn int_text(n: int) -> Seq<char> {
    if n < 0 {
        seq!['-'] + decimal_digits((-n) as nat)
    } else {
        decimal_digits(n as nat)
    }
}

/// `k` zero characters (none when `k` is not positive).
pub open spec fn zeros(k: int) -> Seq<char> {
    Seq::new(if k > 0 { k as nat } else { 0 }, |i: int| '0')
}

/// The decimal text of `n` filled with zeros to at least `width` characters.
/// The zeros stand after the sign, and the sign counts toward the width.
pub open spec fn zero_padded(n: int, width: int) -> Seq<char> {
    if n < 0 {
        seq!['-'] + zeros(width - 1 - decimal_digits((-n) as nat).len()) + decimal_digits(
            (-n) as nat,
        )
    } else {
        zeros(width - decimal_digits(n as nat).len()) + decimal_digits(n as nat)
    }
}

/// The views of a sequence of strings.
pub open spec fn texts(v: Seq<String>) -> Seq<Seq<char>> {
    v.map_values(|s: String| s@)
}

/// The items written one after the other with `sep` between each two neighbours.
pub open spec fn joined(items: Seq<Seq<char>>, sep: Seq<char>) -> Seq<char>
    decreases items.len(),
{
    if items.len() == 0 {
        Seq::empty()
    } else if items.len() == 1 {
        items[0]
    } else {
        joined(items.drop_last(), sep) + sep + items.last()
    }
}

/// The terms in decimal, separated by commas.
pub open spec fn terms_text(terms: Seq<i64>) -> Seq<char> {
    joined(terms.map_values(|t: i64| int_text(t as int)), seq![','])
}

/// The backend query that looks a sequence up by its id.
pub open spec fn id_query(id: Seq<char>) -> Seq<char> {
    seq!['i', 'd', ':'] + id
}

/// The backend query that searches for sequences holding the given terms.
pub open spec fn subsequence_query(terms: Seq<i64>) -> Seq<char> {
    seq!['s', 'e', 'q', ':'] + terms_text(terms)
}

/// Whether `s` begins with `prefix`.
pub open spec fn has_prefix(s: Seq<char>, prefix: Seq<char>) -> bool {
    prefix.len() <= s.len() && s.subrange(0, prefix.len() as int) == prefix
}

fn digit_text(d: u64) -> (r: String)
    requires
        d < 10,
    ensures
        r@ == seq![digit_char(d as nat)],
{
    let lit: &str = if d == 0 {
        proof {
            reveal_strlit("0");
        }
        "0"
    } else if d == 1 {
        proof {
            reveal_strlit("1");
        }
        "1"
    } else if d == 2 {
        proof {
            reveal_strlit("2");
        }
        "2"
    } else if d == 3 {
        proof {
            reveal_strlit("3");
        }
        "3"
    } else if d == 4 {
        proof {
            reveal_strlit("4");
        }
        "4"
    } else if d == 5 {
        proof {
            reveal_strlit("5");
        }
        "5"
    } else if d == 6 {
        proof {
            reveal_strlit("6");
        }
        "6"
    } else if d == 7 {
        proof {
            reveal_strlit("7");
        }
        "7"
    } else if d == 8 {
        proof {
            reveal_strlit("8");
        }
        "8"
    } else {
        proof {
            reveal_strlit("9");
        }
        "9"
    };
    let r = String::from_str(lit);
    assert(r@ =~= seq![digit_char(d as nat)]);
    r
}

/// The decimal digits of `n`.
pub fn decimal_text(n: u64) -> (r: String)
    ensures
        r@ == decimal_digits(n as nat),
    decreases n,
{
    if n < 10 {
        digit_text(n)
    } else {
        let mut s = decimal_text(n / 10);
        let d = digit_text(n % 10);
        s.append(d.as_str());
        s
    }
}

fn magnitude(n: i64) -> (r: u64)
    ensures
        r as int == if n < 0 { -(n as int) } else { n as int },
{
    if n < 0 {
        (0i128 - n as i128) as u64
    } else {
        n as u64
    }
}

/// The decimal text of `n`, signed.
pub fn int_to_text(n: i64) -> (r: String)
    ensures
        r@ == int_text(n as int),
{
    if n < 0 {
        let mut s = String::from_str("-");
        proof {
            reveal_strlit("-");
        }
        let digits = decimal_text(magnitude(n));
        s.append(digits.as_str());
        assert(s@ =~= int_text(n as int));
        s
    } else {
        decimal_text(n as u64)
    }
}

/// The decimal text of `n` filled with zeros after the sign to at least `width` characters.
pub fn zero_padded_text(n: i64, width: usize) -> (r: String)
    ensures
        r@ == zero_padded(n as int, width as int),
{
    let digits = decimal_text(magnitude(n));
    let dlen = digits.unicode_len();
    let sign: usize = if n < 0 { 1 } else { 0 };
    let pad: usize = if dlen < width && width - dlen > sign {
        width - dlen - sign
    } else {
        0
    };
    let mut out = String::new();
    if n < 0 {
        out.append("-");
        proof {
            reveal_strlit("-");
        }
    }
    let ghost head: Seq<char> = out@;
    assert(head =~= if n < 0 { seq!['-'] } else { Seq::<char>::empty() });
    let mut i: usize = 0;
    while i < pad
        invariant
            i <= pad,
            out@ == head + zeros(i as int),
        decreases pad - i,
    {
        out.append("0");
        proof {
            reveal_strlit("0");
        }
        i = i + 1;
        assert(out@ =~= head + zeros(i as int));
    }
    out.append(digits.as_str());
    assert(out@ =~= zero_padded(n as int, width as int));
    out
}

/// The items joined with `sep` between each two neighbours.
pub fn join_text(items: &Vec<String>, sep: &str) -> (r: String)
    ensures
        r@ == joined(texts(items@), sep@),
{
    let mut out = String::new();
    let mut i: usize = 0;
    while i < items.len()
        invariant
            i <= items@.len(),
            out@ == joined(texts(items@.take(i as int)), sep@),
        decreases items@.len() - i,
    {
        let ghost before = texts(items@.take(i as int));
        let ghost after = texts(items@.take(i + 1));
        assert(after.drop_last() =~= before);
        assert(after.last() == items@[i as int]@);
        if i == 0 {
            out = items[i].clone();
        } else {
            out.append(sep);
            out.append(items[i].as_str());
        }
        i = i + 1;
    }
    assert(items@.take(items@.len() as int) =~= items@);
    out
}

/// The terms in decimal, separated by commas.
pub fn terms_to_text(terms: &[i64]) -> (r: String)
    ensures
        r@ == terms_text(terms@),
{
    let mut out = String::new();
    let mut i: usize = 0;
    while i < terms.len()
        invariant
            i <= terms@.len(),
            out@ == terms_text(terms@.take(i as int)),
        decreases terms@.len() - i,
    {
        let ghost before = terms@.take(i as int).map_values(|t: i64| int_text(t as int));
        let ghost after = terms@.take(i + 1).map_values(|t: i64| int_text(t as int));
        assert(after.drop_last() =~= before);
        let term = int_to_text(terms[i]);
        if i == 0 {
            out = term;
        } else {
            out.append(",");
            proof {
                reveal_strlit(",");
            }
            out.append(term.as_str());
        }
        i = i + 1;
    }
    assert(terms@.take(terms@.len() as int) =~= terms@);
    out
}

/// The backend query for the sequence with the given id: `id:` then the id.
pub fn id_query_text(id: &str) -> (r: String)
    ensures
        r@ == id_query(id@),
{
    let mut out = String::from_str("id:");
    proof {
        reveal_strlit("id:");
    }
    out.append(id);
    assert(out@ =~= id_query(id@));
    out
}

/// The backend query for the sequences that hold the given terms:
/// `seq:` then the terms in decimal, separated by commas.
pub fn subsequence_query_text(terms: &[i64]) -> (r: String)
    ensures
        r@ == subsequence_query(terms@),
{
    let mut out = String::from_str("seq:");
    proof {
        reveal_strlit("seq:");
    }
    let joined_terms = terms_to_text(terms);
    out.append(joined_terms.as_str());
    assert(out@ =~= subsequence_query(terms@));
    out
}

/// Whether the two texts are the same.
pub fn text_eq(a: &str, b: &str) -> (r: bool)
    ensures
        r == (a@ == b@),
{
    let n = a.unicode_len();
    if n != b.unicode_len() {
        return false;
    }
    let mut i: usize = 0;
    while i < n
        invariant
            n == a@.len(),
            n == b@.len(),
            i <= n,
            forall|j: int| 0 <= j < i ==> a@[j] == b@[j],
        decreases n - i,
    {
        if a.get_char(i) != b.get_char(i) {
            return false;
        }
        i = i + 1;
    }
    assert(a@ =~= b@);
    true
}

/// What follows `prefix` in `s`, where `s` begins with it.
pub fn strip_prefix_text(s: &str, prefix: &str) -> (r: Option<String>)
    ensures
        r is Some <==> has_prefix(s@, prefix@),
        r is Some ==> prefix@ + r->Some_0@ == s@,
{
    let n = s.unicode_len();
    let m = prefix.unicode_len();
    if m > n {
        return None;
    }
    let head = s.substring_char(0, m);
    if !text_eq(head, prefix) {
        return None;
    }
    let rest = s.substring_char(m, n);
    let r = String::from_str(rest);
    assert(prefix@ + r@ =~= s@);
    Some(r)
}

} // verus!

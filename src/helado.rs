use vstd::prelude::*;

verus! {

/// One flavour of the table: its identifier (absent before the store assigns
/// one), its name and its price, the price kept as text.
#[derive(Debug, Clone, PartialEq, Eq)]
pub struct Helado {
    pub id: Option<i32>,
    pub sabor: String,
    pub precio: String,
}

/// The JSON string literal that serde_json writes for `s`: quoted, with the
/// characters that JSON requires escaped.
pub uninterp spec fn json_string_of(s: Seq<char>) -> Seq<char>;

#[verifier::external_type_specification]
#[verifier::external_body]
pub struct ExJsonError(serde_json::Error);

/// Relies on `serde_json::to_string` on a `str`: the result is the JSON string
/// literal of the text, and serialising a string into memory does not fail.
#[verifier::external_body]
fn json_string(s: &str) -> (r: Result<String, serde_json::Error>)
    ensures
        r is Ok,
        r is Ok ==> r->Ok_0@ == json_string_of(s@),
{
    serde_json::to_string(s)
}

pub open spec fn digit_char(d: int) -> char {
    seq!['0', '1', '2', '3', '4', '5', '6', '7', '8', '9'][d]
}

/// The decimal digits of `n`, without leading zeros.
pub open spec fn decimal(n: nat) -> Seq<char>
    decreases n,
{
    if n < 10 {
        seq![digit_char(n as int)]
    } else {
        decimal(n / 10).push(digit_char((n % 10) as int))
    }
}

/// How JSON writes an integer: a `-` before the digits of a negative one.
pub open spec fn int_text(v: int) -> Seq<char> {
    if v < 0 {
        seq!['-'] + decimal((-v) as nat)
    } else {
        decimal(v as nat)
    }
}

pub open spec fn id_text(id: Option<i32>) -> Seq<char> {
    match id {
        Some(v) => int_text(v as int),
        None => "null"@,
    }
}

/// The JSON object of a record, fields in the order `id`, `sabor`, `precio`.
pub open spec fn json_of(h: Helado) -> Seq<char> {
    "{\"id\":"@ + id_text(h.id) + ",\"sabor\":"@ + json_string_of(h.sabor@) + ",\"precio\":"@
        + json_string_of(h.precio@) + "}"@
}

/// The JSON array of the records of `hs`, in order.
pub open spec fn json_items(hs: Seq<Helado>) -> Seq<char>
    decreases hs.len(),
{
    if hs.len() == 0 {
        Seq::empty()
    } else if hs.len() == 1 {
        json_of(hs[0])
    } else {
        json_items(hs.drop_last()) + ","@ + json_of(hs.last())
    }
}

pub open spec fn json_list(hs: Seq<Helado>) -> Seq<char> {
    "["@ + json_items(hs) + "]"@
}

/// Appends the decimal digits of `n`.
fn push_decimal(out: &mut String, n: u64)
    ensures
        final(out)@ == old(out)@ + decimal(n as nat),
    decreases n,
{
    if n >= 10 {
        push_decimal(out, n / 10);
    }
    let digits = "0123456789";
    proof {
        reveal_strlit("0123456789");
    }
    let d = (n % 10) as usize;
    out.append(digits.substring_char(d, d + 1));
    assert(digits@.subrange(d as int, d + 1) =~= seq![digit_char(d as int)]);
    assert(final(out)@ =~= old(out)@ + decimal(n as nat));
}

/// Appends an integer as JSON writes it.
fn push_int(out: &mut String, v: i32)
    ensures
        final(out)@ == old(out)@ + int_text(v as int),
{
    if v < 0 {
        out.append("-");
        proof {
            reveal_strlit("-");
        }
        let m = (-(v as i64)) as u64;
        push_decimal(out, m);
        assert(final(out)@ =~= old(out)@ + int_text(v as int));
    } else {
        push_decimal(out, v as u64);
    }
}

/// Appends the JSON string literal of `s`.
fn push_json_string(out: &mut String, s: &str)
    ensures
        final(out)@ == old(out)@ + json_string_of(s@),
{
    match json_string(s) {
        Ok(t) => out.append(t.as_str()),
        Err(_) => {},
    }
}

impl Helado {
    /// Appends the JSON object of the record.
    pub fn write_json(&self, out: &mut String)
        ensures
            final(out)@ == old(out)@ + json_of(*self),
    {
        let ghost start = out@;
        out.append("{\"id\":");
        match self.id {
            Some(v) => push_int(out, v),
            None => out.append("null"),
        }
        out.append(",\"sabor\":");
        push_json_string(out, self.sabor.as_str());
        out.append(",\"precio\":");
        push_json_string(out, self.precio.as_str());
        out.append("}");
        assert(out@ =~= start + json_of(*self));
    }

    /// The JSON object of the record, as serde's derived serialisation writes it.
    pub fn to_json(&self) -> (r: String)
        ensures
            r@ == json_of(*self),
    {
        let mut out = String::new();
        self.write_json(&mut out);
        assert(out@ =~= json_of(*self));
        out
    }
}

/// The JSON array of the records, in order.
pub fn list_to_json(hs: &Vec<Helado>) -> (r: String)
    ensures
        r@ == json_list(hs@),
{
    let mut out = String::new();
    out.append("[");
    let mut i: usize = 0;
    while i < hs.len()
        invariant
            i <= hs@.len(),
            out@ == "["@ + json_items(hs@.subrange(0, i as int)),
        decreases hs.len() - i,
    {
        let ghost before = out@;
        if i > 0 {
            out.append(",");
        }
        hs[i].write_json(&mut out);
        proof {
            let next = hs@.subrange(0, i + 1);
            assert(next.drop_last() =~= hs@.subrange(0, i as int));
            if i == 0 {
                assert(hs@.subrange(0, 0) =~= Seq::<Helado>::empty());
                reveal_strlit(",");
            }
        }
        assert(out@ =~= "["@ + json_items(hs@.subrange(0, i + 1)));
        i = i + 1;
    }
    out.append("]");
    assert(hs@.subrange(0, hs.len() as int) =~= hs@);
    out
}

} // verus!

use vstd::prelude::*;
use vstd::arithmetic::div_mod::{lemma_add_mod_noop_right, lemma_small_mod, lemma_mod_sub_multiples_vanish, lemma_mod_multiples_vanish};
use crate::json::{decimal, signed_decimal, quoted, int_list, push_decimal, push_signed, push_quoted, push_int_list};
use crate::text::{reversed, chars_of, reverse_text};

verus! {

/// The derived values that `process_complex_types` computes from its inputs.
#[derive(Debug)]
pub struct ProcessResult {
    pub processed_u8: u8,
    pub bytes_len: usize,
    pub appended_string: String,
    pub vector_sum: i32,
    pub reversed_string: String,
    pub doubled_vector: Vec<i32>,
}

/// `x` brought into the range of `i32` modulo 2^32, as two's complement
/// arithmetic does.
pub open spec fn wrap_i32(x: int) -> int {
    (x + 0x8000_0000) % 0x1_0000_0000 - 0x8000_0000
}

/// The exact sum of `v`.
pub open spec fn seq_sum(v: Seq<i32>) -> int
    decreases v.len(),
{
    if v.len() == 0 {
        0
    } else {
        seq_sum(v.drop_last()) + v.last()
    }
}

/// Each element of `v` doubled, wrapping as `i32` arithmetic does.
pub open spec fn doubled(v: Seq<i32>) -> Seq<i32> {
    Seq::new(v.len(), |i: int| wrap_i32(2 * v[i]) as i32)
}

/// `text` followed by the word `processed`.
pub open spec fn appended(text: Seq<char>) -> Seq<char> {
    text + " processed"@
}

/// The JSON object that carries the six derived values, in their fixed order.
pub open spec fn payload(
    processed_u8: u8,
    bytes_len: usize,
    appended_string: Seq<char>,
    vector_sum: i32,
    reversed_string: Seq<char>,
    doubled_vector: Seq<i32>,
) -> Seq<char> {
    "{\"processed_u8\": "@ + decimal(processed_u8 as nat) + ", \"bytes_len\": "@ + decimal(
        bytes_len as nat,
    ) + ", \"appended_string\": "@ + quoted(appended_string) + ", \"vector_sum\": "@
        + signed_decimal(vector_sum as int) + ", \"reversed_string\": "@ + quoted(reversed_string)
        + ", \"doubled_vector\": "@ + int_list(doubled_vector) + "}"@
}

proof fn lemma_wrap_add(a: int, b: int)
    ensures
        wrap_i32(wrap_i32(a) + b) == wrap_i32(a + b),
{
    lemma_add_mod_noop_right(b, a + 0x8000_0000, 0x1_0000_0000);
}

proof fn lemma_wrapping_add(x: i32, y: i32)
    ensures
        x.wrapping_add(y) as int == wrap_i32(x + y),
{
    let s = x + y + 0x8000_0000;
    if s >= 0x1_0000_0000 {
        lemma_mod_sub_multiples_vanish(s, 0x1_0000_0000);
        lemma_small_mod((s - 0x1_0000_0000) as nat, 0x1_0000_0000);
    } else if s < 0 {
        lemma_mod_multiples_vanish(1, s, 0x1_0000_0000);
        lemma_small_mod((s + 0x1_0000_0000) as nat, 0x1_0000_0000);
    } else {
        lemma_small_mod(s as nat, 0x1_0000_0000);
    }
}

/// Adds ten to a byte, wrapping around at 256.
pub fn processed_scalar(b: u8) -> (r: u8)
    ensures
        r as int == (b as int + 10) % 256,
{
    b.wrapping_add(10)
}

/// `text` followed by `" processed"`.
pub fn append_processed(text: &str) -> (r: String)
    ensures
        r@ == appended(text@),
{
    let mut r = String::from_str(text);
    r.append(" processed");
    r
}

/// The sum of `v`, wrapping on overflow as two's complement `i32` does.
pub fn wrapping_sum(v: &Vec<i32>) -> (r: i32)
    ensures
        r as int == wrap_i32(seq_sum(v@)),
{
    let mut acc: i32 = 0;
    let mut i: usize = 0;
    while i < v.len()
        invariant
            i <= v@.len(),
            acc as int == wrap_i32(seq_sum(v@.subrange(0, i as int))),
        decreases v@.len() - i,
    {
        proof {
            let pre = v@.subrange(0, i as int);
            assert(v@.subrange(0, i + 1).drop_last() =~= pre);
            lemma_wrapping_add(acc, v[i as int]);
            lemma_wrap_add(seq_sum(pre), v[i as int] as int);
        }
        acc = acc.wrapping_add(v[i]);
        i = i + 1;
    }
    assert(v@.subrange(0, v@.len() as int) =~= v@);
    acc
}

/// Each element of `v` doubled, wrapping on overflow as two's complement
/// `i32` does; order and length are kept.
pub fn double_all(v: &Vec<i32>) -> (r: Vec<i32>)
    ensures
        r@ == doubled(v@),
{
    let mut out: Vec<i32> = Vec::new();
    let mut i: usize = 0;
    while i < v.len()
        invariant
            i <= v@.len(),
            out@ == doubled(v@).subrange(0, i as int),
        decreases v@.len() - i,
    {
        proof {
            lemma_wrapping_add(v[i as int], v[i as int]);
        }
        out.push(v[i].wrapping_add(v[i]));
        i = i + 1;
        assert(out@ =~= doubled(v@).subrange(0, i as int));
    }
    assert(out@ =~= doubled(v@));
    out
}

/// Derives the six result values from the inputs.
pub fn process_complex_types(
    input_u8: u8,
    input_bytes: &Vec<u8>,
    input_string: &str,
    input_vector: &Vec<i32>,
) -> (r: ProcessResult)
    ensures
        r.processed_u8 as int == (input_u8 as int + 10) % 256,
        r.bytes_len == input_bytes@.len(),
        r.appended_string@ == appended(input_string@),
        r.vector_sum as int == wrap_i32(seq_sum(input_vector@)),
        r.reversed_string@ == reversed(input_string@),
        r.doubled_vector@ == doubled(input_vector@),
{
    ProcessResult {
        processed_u8: processed_scalar(input_u8),
        bytes_len: input_bytes.len(),
        appended_string: append_processed(input_string),
        vector_sum: wrapping_sum(input_vector),
        reversed_string: reverse_text(input_string),
        doubled_vector: double_all(input_vector),
    }
}

impl ProcessResult {
    /// The JSON text of these values.
    pub open spec fn spec_json(&self) -> Seq<char> {
        payload(
            self.processed_u8,
            self.bytes_len,
            self.appended_string@,
            self.vector_sum,
            self.reversed_string@,
            self.doubled_vector@,
        )
    }

    /// Encodes the values as one JSON object, strings escaped.
    pub fn to_json(&self) -> (r: String)
        ensures
            r@ == self.spec_json(),
    {
        let mut out = String::new();
        out.append("{\"processed_u8\": ");
        push_decimal(&mut out, self.processed_u8 as u64);
        out.append(", \"bytes_len\": ");
        push_decimal(&mut out, self.bytes_len as u64);
        out.append(", \"appended_string\": ");
        push_quoted(&mut out, &chars_of(self.appended_string.as_str()));
        out.append(", \"vector_sum\": ");
        push_signed(&mut out, self.vector_sum);
        out.append(", \"reversed_string\": ");
        push_quoted(&mut out, &chars_of(self.reversed_string.as_str()));
        out.append(", \"doubled_vector\": ");
        push_int_list(&mut out, &self.doubled_vector);
        out.append("}");
        assert(out@ =~= self.spec_json());
        out
    }
}

/// Derives the six result values and returns them as one JSON object.
pub fn process_complex_types_json(
    input_u8: u8,
    input_bytes: Vec<u8>,
    input_string: String,
    input_vector: Vec<i32>,
) -> (r: String)
    ensures
        r@ == payload(
            ((input_u8 as int + 10) % 256) as u8,
            input_bytes@.len() as usize,
            appended(input_string@),
            wrap_i32(seq_sum(input_vector@)) as i32,
            reversed(input_string@),
            doubled(input_vector@),
        ),
{
    let p = process_complex_types(input_u8, &input_bytes, input_string.as_str(), &input_vector);
    p.to_json()
}

/// Doubling keeps the length, and each element is exactly twice the input
/// wherever that product fits in an `i32`.
pub proof fn lemma_doubled(v: Seq<i32>)
    ensures
        doubled(v).len() == v.len(),
        forall|i: int|
            0 <= i < v.len() && -0x4000_0000 <= v[i] < 0x4000_0000 ==> #[trigger] doubled(v)[i] == 2
                * v[i],
{
    assert forall|i: int| 0 <= i < v.len() && -0x4000_0000 <= v[i] < 0x4000_0000 implies #[trigger] doubled(v)[i] == 2 * v[i] by {
        lemma_small_mod((2 * v[i] + 0x8000_0000) as nat, 0x1_0000_0000);
    }
}

} // verus!

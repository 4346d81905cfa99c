//! Human-friendly device naming: a deterministic hash-to-wordlist pick.
//!
//! A device's identity — vendor id, product id, unique string and name —
//! is fed through a hasher in a fixed, length-framed order, and the
//! resulting seed picks one word from a wordlist. The same physical
//! device therefore always receives the same friendly name within a run.

use vstd::prelude::*;
use vstd::utf8::encode_utf8;
use std::collections::hash_map::DefaultHasher;
use std::hash::Hasher;
use vstd::std_specs::hash::DefaultHasherAdditionalSpecFns;
use rand::SeedableRng;
use rand::seq::SliceRandom;

verus! {

/// The stable identity of one physical device: what the device registry
/// reports for it. Two handles to the same physical device carry equal
/// identities, so they hash equal and receive the same friendly name.
#[derive(Debug, Clone, PartialEq, Eq, Hash)]
pub struct DeviceIdentity {
    pub vendor_id: u16,
    pub product_id: u16,
    pub uniq: Option<String>,
    pub name: Option<String>,
}

/// The mathematical content of an identity.
pub struct IdentityView {
    pub vendor_id: u16,
    pub product_id: u16,
    pub uniq: Option<Seq<char>>,
    pub name: Option<Seq<char>>,
}

pub open spec fn opt_string_view(s: Option<String>) -> Option<Seq<char>> {
    match s {
        Option::None => Option::None,
        Option::Some(x) => Option::Some(x@),
    }
}

impl View for DeviceIdentity {
    type V = IdentityView;

    open spec fn view(&self) -> IdentityView {
        IdentityView {
            vendor_id: self.vendor_id,
            product_id: self.product_id,
            uniq: opt_string_view(self.uniq),
            name: opt_string_view(self.name),
        }
    }
}

/// The hasher writes encoding one optional string: a presence tag, then
/// for a present string its text as one write.
pub open spec fn opt_str_writes(s: Option<Seq<char>>) -> Seq<Seq<u8>> {
    match s {
        Option::None => seq![seq![0u8]],
        Option::Some(v) => seq![seq![1u8], encode_utf8(v)],
    }
}

/// The two little-endian bytes of a 16-bit id, as one hasher write.
pub open spec fn u16_write(v: u16) -> Seq<u8> {
    seq![(v as int % 256) as u8, (v as int / 256) as u8]
}

/// The full, fixed sequence of hasher writes encoding an identity:
/// unique string, name, product id, vendor id.
pub open spec fn identity_writes(id: IdentityView) -> Seq<Seq<u8>> {
    opt_str_writes(id.uniq) + opt_str_writes(id.name)
        + seq![u16_write(id.product_id), u16_write(id.vendor_id)]
}

/// The seed an identity hashes to.
pub open spec fn spec_identity_seed(id: IdentityView) -> u64 {
    DefaultHasher::spec_finish(identity_writes(id))
}

/// Feed one byte to the hasher as a single write.
fn write_byte(h: &mut DefaultHasher, b: u8)
    ensures
        final(h)@ == old(h)@.push(seq![b]),
{
    let mut buf: Vec<u8> = Vec::new();
    buf.push(b);
    proof {
        assert(buf@ =~= seq![b]);
    }
    h.write(buf.as_slice());
}

/// Feed a 16-bit id to the hasher as one little-endian write.
fn write_u16(h: &mut DefaultHasher, v: u16)
    ensures
        final(h)@ == old(h)@.push(u16_write(v)),
{
    let mut buf: Vec<u8> = Vec::new();
    buf.push((v % 256) as u8);
    buf.push((v / 256) as u8);
    proof {
        assert(buf@ =~= u16_write(v));
    }
    h.write(buf.as_slice());
}

/// Feed an optional string to the hasher: its presence tag, then its
/// text.
fn write_opt_str(h: &mut DefaultHasher, s: &Option<String>)
    ensures
        final(h)@ == old(h)@ + opt_str_writes(opt_string_view(*s)),
{
    match s {
        Option::None => {
            write_byte(h, 0);
        },
        Option::Some(x) => {
            write_byte(h, 1);
            h.write(x.as_str().as_bytes());
        },
    }
    proof {
        assert(h@ =~= old(h)@ + opt_str_writes(opt_string_view(*s)));
    }
}

/// The seed a device identity hashes to: deterministic, so the same
/// device always lands on the same word.
pub fn identity_seed(id: &DeviceIdentity) -> (seed: u64)
    ensures
        seed == spec_identity_seed(id@),
{
    let mut h = DefaultHasher::new();
    write_opt_str(&mut h, &id.uniq);
    write_opt_str(&mut h, &id.name);
    write_u16(&mut h, id.product_id);
    write_u16(&mut h, id.vendor_id);
    proof {
        assert(h@ =~= identity_writes(id@));
    }
    h.finish()
}

/// The index rand's standard generator, seeded with `seed`, picks from a
/// list of `n` items.
pub uninterp spec fn std_rng_index(seed: u64, n: int) -> int;

/// Relies on rand's `StdRng::seed_from_u64` and `SliceRandom::choose`: a
/// generator seeded from a fixed value is deterministic, and `choose`
/// returns `None` exactly on an empty slice and otherwise the element at
/// an index drawn from the generator — so the picked index is a function
/// of the seed and the slice length alone.
#[verifier::external_body]
fn choose_word(words: &Vec<String>, seed: u64) -> (r: Option<String>)
    ensures
        match r {
            Option::Some(w) => {
                &&& words@.len() > 0
                &&& 0 <= std_rng_index(seed, words@.len() as int) < words@.len()
                &&& w@ == words@[std_rng_index(seed, words@.len() as int)]@
            },
            Option::None => words@.len() == 0,
        },
{
    let mut rng: rand::rngs::StdRng = rand::rngs::StdRng::seed_from_u64(seed);
    words.as_slice().choose(&mut rng).cloned()
}

/// A character a wordlist line may carry before the word itself: the
/// dice-roll digits and the spacing that separate them from the word.
pub open spec fn is_trim_char(c: char) -> bool {
    c == ' ' || c == '\t' || (48 <= c as u32 && c as u32 <= 57)
}

/// The position of the first line feed in `s` at or after `i`, or
/// `s.len()` when there is none.
pub open spec fn line_end(s: Seq<char>, i: int) -> int
    decreases s.len() - i,
{
    if i >= s.len() {
        s.len() as int
    } else if s[i] == '\n' {
        i
    } else {
        line_end(s, i + 1)
    }
}

proof fn lemma_line_end_bounds(s: Seq<char>, i: int)
    requires
        0 <= i <= s.len(),
    ensures
        i <= line_end(s, i) <= s.len(),
    decreases s.len() - i,
{
    if i < s.len() && s[i] != '\n' {
        lemma_line_end_bounds(s, i + 1);
    }
}

/// A line with its one optional trailing carriage return removed.
pub open spec fn strip_cr(l: Seq<char>) -> Seq<char> {
    if l.len() > 0 && l.last() == '\r' {
        l.drop_last()
    } else {
        l
    }
}

/// A line with its leading list-format characters removed.
pub open spec fn trim_start(l: Seq<char>) -> Seq<char>
    decreases l.len(),
{
    if l.len() > 0 && is_trim_char(l[0]) {
        trim_start(l.drop_first())
    } else {
        l
    }
}

/// The lines of `s` from position `pos` on, split at line feeds, each
/// without its trailing carriage return; a trailing line feed opens no
/// extra empty line.
pub open spec fn spec_lines_from(s: Seq<char>, pos: int) -> Seq<Seq<char>>
    decreases s.len() - pos when 0 <= pos <= s.len() via spec_lines_from_decreases
{
    if pos >= s.len() {
        Seq::empty()
    } else {
        let e = line_end(s, pos);
        if e == s.len() {
            seq![strip_cr(s.subrange(pos, e))]
        } else {
            seq![strip_cr(s.subrange(pos, e))] + spec_lines_from(s, e + 1)
        }
    }
}

#[via_fn]
proof fn spec_lines_from_decreases(s: Seq<char>, pos: int) {
    if 0 <= pos < s.len() {
        lemma_line_end_bounds(s, pos);
    }
}

/// The words of a wordlist text: one per line, each stripped of the
/// dice-roll digits and spacing before it.
pub open spec fn spec_wordlist(s: Seq<char>) -> Seq<Seq<char>> {
    spec_lines_from(s, 0).map_values(|l: Seq<char>| trim_start(l))
}

/// Whether a character is wordlist line framing rather than word text.
fn is_list_format_char(c: char) -> (r: bool)
    ensures
        r == is_trim_char(c),
{
    let u = c as u32;
    c == ' ' || c == '\t' || (48 <= u && u <= 57)
}

/// Parse a wordlist text: one word per line, with the dice-roll digits
/// and spacing that precede each word removed.
pub fn parse_wordlist(data: &str) -> (words: Vec<String>)
    ensures
        words@.map_values(|w: String| w@) == spec_wordlist(data@),
{
    let n = data.unicode_len();
    let mut words: Vec<String> = Vec::new();
    let mut pos: usize = 0;
    while pos < n
        invariant
            0 <= pos <= n,
            n == data@.len(),
            words@.map_values(|w: String| w@)
                + spec_lines_from(data@, pos as int).map_values(|l: Seq<char>| trim_start(l))
                =~= spec_wordlist(data@),
        decreases n - pos,
    {
        let ghost words0 = words@;
        let ghost pos0 = pos as int;
        let mut e: usize = pos;
        while e < n && data.get_char(e) != '\n'
            invariant
                pos <= e <= n,
                n == data@.len(),
                line_end(data@, pos as int) == line_end(data@, e as int),
            decreases n - e,
        {
            e = e + 1;
        }
        proof {
            assert(line_end(data@, pos0) == e as int);
        }
        let lc: usize = if e > pos && data.get_char(e - 1) == '\r' {
            e - 1
        } else {
            e
        };
        proof {
            if e > pos && data@[e as int - 1] == '\r' {
                assert(data@.subrange(pos0, e as int).drop_last()
                    =~= data@.subrange(pos0, lc as int));
            }
            assert(strip_cr(data@.subrange(pos0, e as int)) == data@.subrange(pos0, lc as int));
        }
        let mut b: usize = pos;
        while b < lc && is_list_format_char(data.get_char(b))
            invariant
                pos <= b <= lc <= n,
                n == data@.len(),
                trim_start(data@.subrange(pos as int, lc as int))
                    == trim_start(data@.subrange(b as int, lc as int)),
            decreases lc - b,
        {
            proof {
                assert(data@.subrange(b as int, lc as int).drop_first()
                    =~= data@.subrange(b as int + 1, lc as int));
            }
            b = b + 1;
        }
        let word = data.substring_char(b, lc);
        words.push(word.to_owned());
        pos = if e < n {
            e + 1
        } else {
            e
        };
        proof {
            assert(trim_start(data@.subrange(pos0, lc as int)) == word@);
            assert(spec_lines_from(data@, pos0)
                =~= seq![data@.subrange(pos0, lc as int)] + spec_lines_from(data@, pos as int));
            assert(words@.map_values(|w: String| w@)
                =~= words0.map_values(|w: String| w@) + seq![word@]);
            assert(words@.map_values(|w: String| w@)
                + spec_lines_from(data@, pos as int).map_values(|l: Seq<char>| trim_start(l))
                =~= spec_wordlist(data@));
        }
    }
    proof {
        assert(spec_lines_from(data@, pos as int) =~= Seq::<Seq<char>>::empty());
        assert(words@.map_values(|w: String| w@) =~= spec_wordlist(data@));
    }
    words
}

/// The friendly name of a device: the wordlist entry its identity hashes
/// to. Returns nothing only when the wordlist is empty.
pub fn friendly_name(id: &DeviceIdentity, words: &Vec<String>) -> (r: Option<String>)
    ensures
        match r {
            Option::Some(w) => {
                &&& words@.len() > 0
                &&& 0 <= std_rng_index(spec_identity_seed(id@), words@.len() as int)
                    < words@.len()
                &&& w@ == words@[std_rng_index(spec_identity_seed(id@), words@.len() as int)]@
            },
            Option::None => words@.len() == 0,
        },
{
    choose_word(words, identity_seed(id))
}

} // verus!

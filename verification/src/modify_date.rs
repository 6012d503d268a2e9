//! The `ModifyDate` tag of a converted file.
//!
//! A wall-clock time would make every output differ from the previous one, so the date is
//! derived from the seed and the name of the input instead: the 64-bit FNV-1a hash of both,
//! mapped onto a plausible calendar date.

use vstd::prelude::*;
use vstd::string::*;
use vstd::utf8::encode_utf8;

verus! {

/// Offset basis of the 64-bit FNV-1a hash.
pub const FNV_OFFSET_BASIS: u64 = 0xcbf29ce484222325;

/// Prime of the 64-bit FNV-1a hash.
pub const FNV_PRIME: u64 = 0x100000001b3;

/// One FNV-1a round: mix `byte` into `hash`, then multiply modulo 2^64.
pub open spec fn fnv1a_round(hash: u64, byte: u8) -> u64 {
    (((hash ^ (byte as u64)) * FNV_PRIME) % 0x1_0000_0000_0000_0000) as u64
}

/// The hash after absorbing all of `bytes`, starting from `hash`.
pub open spec fn fnv1a_from(hash: u64, bytes: Seq<u8>) -> u64
    decreases bytes.len(),
{
    if bytes.len() == 0 {
        hash
    } else {
        fnv1a_round(fnv1a_from(hash, bytes.drop_last()), bytes.last())
    }
}

/// The 64-bit FNV-1a hash of `bytes`.
pub open spec fn fnv1a(bytes: Seq<u8>) -> u64 {
    fnv1a_from(FNV_OFFSET_BASIS, bytes)
}

/// Absorb `bytes` into a running FNV-1a hash.
pub fn fnv1a_update(hash: u64, bytes: &[u8]) -> (r: u64)
    ensures
        r == fnv1a_from(hash, bytes@),
{
    let mut h: u64 = hash;
    let mut i: usize = 0;
    while i < bytes.len()
        invariant
            i <= bytes@.len(),
            h == fnv1a_from(hash, bytes@.take(i as int)),
        decreases bytes@.len() - i,
    {
        proof {
            let longer = bytes@.take(i + 1);
            assert(longer.drop_last() =~= bytes@.take(i as int));
            assert(longer.last() == bytes@[i as int]);
        }
        h = (h ^ (bytes[i] as u64)).wrapping_mul(FNV_PRIME);
        i = i + 1;
    }
    assert(bytes@.take(i as int) =~= bytes@);
    h
}

/// A calendar date with a time of day.
#[derive(Clone, Copy, Debug, PartialEq, Eq, Structural)]
pub struct ModifyDate {
    pub year: u32,
    pub month: u32,
    pub day: u32,
    pub hour: u32,
    pub minute: u32,
    pub second: u32,
}

/// The decimal digit `d` as a character.
pub open spec fn digit(d: int) -> char {
    (48 + d) as char
}

/// `n`, below 100, as two decimal digits.
pub open spec fn two_digits(n: int) -> Seq<char> {
    seq![digit(n / 10), digit(n % 10)]
}

/// `n`, below 10000, as four decimal digits.
pub open spec fn four_digits(n: int) -> Seq<char> {
    two_digits(n / 100) + two_digits(n % 100)
}

impl ModifyDate {
    /// A date that exists in every calendar year, from the start of 2000 to the end of 2037.
    pub open spec fn plausible(self) -> bool {
        &&& 2000 <= self.year < 2038
        &&& 1 <= self.month <= 12
        &&& 1 <= self.day <= 28
        &&& self.hour < 24
        &&& self.minute < 60
        &&& self.second < 60
    }

    /// The date that stands for `hash`: each field takes its own slice of the hash.
    pub open spec fn of_hash(hash: u64) -> ModifyDate {
        ModifyDate {
            year: (2000 + hash % 38) as u32,
            month: (1 + (hash >> 8) % 12) as u32,
            day: (1 + (hash >> 16) % 28) as u32,
            hour: ((hash >> 24) % 24) as u32,
            minute: ((hash >> 32) % 60) as u32,
            second: ((hash >> 40) % 60) as u32,
        }
    }

    /// Every field fits the width that the text form gives it.
    pub open spec fn printable(self) -> bool {
        &&& self.year < 10000
        &&& self.month < 100
        &&& self.day < 100
        &&& self.hour < 100
        &&& self.minute < 100
        &&& self.second < 100
    }

    /// The text form `YYYY:MM:DD hh:mm:ss`.
    pub open spec fn text(self) -> Seq<char> {
        four_digits(self.year as int) + seq![':'] + two_digits(self.month as int) + seq![':']
            + two_digits(self.day as int) + seq![' '] + two_digits(self.hour as int) + seq![':']
            + two_digits(self.minute as int) + seq![':'] + two_digits(self.second as int)
    }

    /// Map a hash onto a plausible date.
    pub fn from_hash(hash: u64) -> (r: ModifyDate)
        ensures
            r == ModifyDate::of_hash(hash),
            r.plausible(),
    {
        ModifyDate {
            year: 2000 + (hash % 38) as u32,
            month: 1 + ((hash >> 8) % 12) as u32,
            day: 1 + ((hash >> 16) % 28) as u32,
            hour: ((hash >> 24) % 24) as u32,
            minute: ((hash >> 32) % 60) as u32,
            second: ((hash >> 40) % 60) as u32,
        }
    }

    /// The text form of the date, as EXIF stores it.
    pub fn to_text(&self) -> (r: String)
        requires
            self.printable(),
        ensures
            r@ == self.text(),
    {
        proof {
            reveal_strlit(":");
            reveal_strlit(" ");
            assert(":"@ =~= seq![':']);
            assert(" "@ =~= seq![' ']);
        }
        let mut out: String = String::new();
        append_two_digits(&mut out, self.year / 100);
        append_two_digits(&mut out, self.year % 100);
        out.append(":");
        append_two_digits(&mut out, self.month);
        out.append(":");
        append_two_digits(&mut out, self.day);
        out.append(" ");
        append_two_digits(&mut out, self.hour);
        out.append(":");
        append_two_digits(&mut out, self.minute);
        out.append(":");
        append_two_digits(&mut out, self.second);
        assert(out@ =~= self.text());
        out
    }
}

fn digit_text(d: u32) -> (r: &'static str)
    requires
        d < 10,
    ensures
        r@ == seq![digit(d as int)],
{
    let text: &'static str = match d {
        0 => "0",
        1 => "1",
        2 => "2",
        3 => "3",
        4 => "4",
        5 => "5",
        6 => "6",
        7 => "7",
        8 => "8",
        _ => "9",
    };
    proof {
        reveal_strlit("0");
        reveal_strlit("1");
        reveal_strlit("2");
        reveal_strlit("3");
        reveal_strlit("4");
        reveal_strlit("5");
        reveal_strlit("6");
        reveal_strlit("7");
        reveal_strlit("8");
        reveal_strlit("9");
    }
    assert(text@ =~= seq![digit(d as int)]);
    text
}

fn append_two_digits(out: &mut String, n: u32)
    requires
        n < 100,
    ensures
        final(out)@ == old(out)@ + two_digits(n as int),
{
    out.append(digit_text(n / 10));
    out.append(digit_text(n % 10));
    assert(out@ =~= old(out)@ + two_digits(n as int));
}

/// The bytes that decide the date: the seed followed by the name of the input.
pub open spec fn date_key(seed: Seq<char>, name: Seq<char>) -> Seq<u8> {
    encode_utf8(seed) + encode_utf8(name)
}

/// The text of the `ModifyDate` tag for a seed and an input name.
pub open spec fn modify_date_text(seed: Seq<char>, name: Seq<char>) -> Seq<char> {
    ModifyDate::of_hash(fnv1a(date_key(seed, name))).text()
}

/// The text of the `ModifyDate` tag.
///
/// It depends on the seed and the input name alone; an empty seed still gives a stable value.
pub fn modify_date(seed: &str, name: &str) -> (r: String)
    ensures
        r@ == modify_date_text(seed@, name@),
{
    let seeded: u64 = fnv1a_update(FNV_OFFSET_BASIS, seed.as_bytes());
    let hash: u64 = fnv1a_update(seeded, name.as_bytes());
    proof {
        law_fnv1a_concat(FNV_OFFSET_BASIS, encode_utf8(seed@), encode_utf8(name@));
    }
    ModifyDate::from_hash(hash).to_text()
}

/// Hashing two byte strings one after the other is hashing their concatenation.
pub proof fn law_fnv1a_concat(hash: u64, a: Seq<u8>, b: Seq<u8>)
    ensures
        fnv1a_from(fnv1a_from(hash, a), b) == fnv1a_from(hash, a + b),
    decreases b.len(),
{
    if b.len() == 0 {
        assert(a + b =~= a);
    } else {
        assert((a + b).drop_last() =~= a + b.drop_last());
        law_fnv1a_concat(hash, a, b.drop_last());
    }
}

/// Hashing nothing leaves the hash as it is, and hashing one byte mixes it in and multiplies by
/// the prime modulo 2^64. With the law on concatenation this fixes the hash of all bytes.
pub proof fn law_fnv1a_of_byte(hash: u64, byte: u8)
    ensures
        fnv1a_from(hash, Seq::empty()) == hash,
        fnv1a_from(hash, seq![byte]) == ((hash ^ (byte as u64)) * 0x100_0000_01b3)
            % 0x1_0000_0000_0000_0000,
        fnv1a(Seq::empty()) == 0xcbf29ce484222325,
{
    assert(seq![byte].drop_last() =~= Seq::<u8>::empty());
}

/// Read as numbers, the parts of a date's text are its fields, from year to second, and between
/// them stand colons and a blank.
pub proof fn law_text_reads_back(date: ModifyDate)
    requires
        date.year < 10000,
        date.month < 100,
        date.day < 100,
        date.hour < 100,
        date.minute < 100,
        date.second < 100,
    ensures
        date.printable(),
        date.text().len() == 19,
        (date.text()[0] as int - 48) * 1000 + (date.text()[1] as int - 48) * 100 + (
        date.text()[2] as int - 48) * 10 + (date.text()[3] as int - 48) == date.year,
        (date.text()[5] as int - 48) * 10 + (date.text()[6] as int - 48) == date.month,
        (date.text()[8] as int - 48) * 10 + (date.text()[9] as int - 48) == date.day,
        (date.text()[11] as int - 48) * 10 + (date.text()[12] as int - 48) == date.hour,
        (date.text()[14] as int - 48) * 10 + (date.text()[15] as int - 48) == date.minute,
        (date.text()[17] as int - 48) * 10 + (date.text()[18] as int - 48) == date.second,
        date.text()[4] == ':',
        date.text()[7] == ':',
        date.text()[10] == ' ',
        date.text()[13] == ':',
        date.text()[16] == ':',
        forall|i: int|
            0 <= i < 19 && i != 4 && i != 7 && i != 10 && i != 13 && i != 16 ==> 48
                <= #[trigger] date.text()[i] as int <= 57,
{
    lemma_two_digits(date.year as int / 100);
    lemma_two_digits(date.year as int % 100);
    lemma_two_digits(date.month as int);
    lemma_two_digits(date.day as int);
    lemma_two_digits(date.hour as int);
    lemma_two_digits(date.minute as int);
    lemma_two_digits(date.second as int);
}

/// Year, month, day, hour, minute and second are the hash divided by a growing power of 256,
/// each reduced to its range. The earliest is the start of the year 2000.
pub proof fn law_date_slices_hash(hash: u64)
    ensures
        ModifyDate::of_hash(hash).year == 2000 + hash % 38,
        ModifyDate::of_hash(hash).month == 1 + (hash / 0x100) % 12,
        ModifyDate::of_hash(hash).day == 1 + (hash / 0x1_0000) % 28,
        ModifyDate::of_hash(hash).hour == (hash / 0x100_0000) % 24,
        ModifyDate::of_hash(hash).minute == (hash / 0x1_0000_0000) % 60,
        ModifyDate::of_hash(hash).second == (hash / 0x100_0000_0000) % 60,
{
    assert(hash >> 8 == hash / 0x100) by (bit_vector);
    assert(hash >> 16 == hash / 0x1_0000) by (bit_vector);
    assert(hash >> 24 == hash / 0x100_0000) by (bit_vector);
    assert(hash >> 32 == hash / 0x1_0000_0000) by (bit_vector);
    assert(hash >> 40 == hash / 0x100_0000_0000) by (bit_vector);
}

/// The date, read as numbers, is cut from the 64-bit FNV-1a hash of the seed and then the name,
/// starting from the offset basis of that hash.
pub proof fn law_date_is_cut_from_hash(seed: Seq<char>, name: Seq<char>, hash: u64)
    requires
        hash == fnv1a_from(
            fnv1a_from(0xcbf29ce484222325, encode_utf8(seed)),
            encode_utf8(name),
        ),
    ensures
        ({
            let text = modify_date_text(seed, name);
            &&& text.len() == 19
            &&& (text[0] as int - 48) * 1000 + (text[1] as int - 48) * 100 + (text[2] as int - 48)
                * 10 + (text[3] as int - 48) == 2000 + hash % 38
            &&& (text[5] as int - 48) * 10 + (text[6] as int - 48) == 1 + (hash / 0x100) % 12
            &&& (text[8] as int - 48) * 10 + (text[9] as int - 48) == 1 + (hash / 0x1_0000) % 28
            &&& (text[11] as int - 48) * 10 + (text[12] as int - 48) == (hash / 0x100_0000) % 24
            &&& (text[14] as int - 48) * 10 + (text[15] as int - 48) == (hash / 0x1_0000_0000) % 60
            &&& (text[17] as int - 48) * 10 + (text[18] as int - 48) == (hash / 0x100_0000_0000)
                % 60
            &&& text[4] == ':' && text[7] == ':' && text[10] == ' ' && text[13] == ':' && text[16]
                == ':'
        }),
{
    law_fnv1a_concat(0xcbf29ce484222325, encode_utf8(seed), encode_utf8(name));
    law_date_slices_hash(hash);
    law_text_reads_back(ModifyDate::of_hash(hash));
}

proof fn lemma_two_digits(n: int)
    requires
        0 <= n < 100,
    ensures
        48 <= two_digits(n)[0] as int <= 57,
        48 <= two_digits(n)[1] as int <= 57,
        (two_digits(n)[0] as int - 48) * 10 + (two_digits(n)[1] as int - 48) == n,
{
}

/// Every hash gives a date between 2000 and 2037 that exists in the calendar.
pub proof fn law_date_is_plausible(hash: u64)
    ensures
        ModifyDate::of_hash(hash).plausible(),
        ModifyDate::of_hash(hash).printable(),
{
}

/// The tag has the same nineteen-character layout for every seed and name.
pub proof fn law_date_layout(seed: Seq<char>, name: Seq<char>)
    ensures
        modify_date_text(seed, name).len() == 19,
        modify_date_text(seed, name)[4] == ':',
        modify_date_text(seed, name)[7] == ':',
        modify_date_text(seed, name)[10] == ' ',
        modify_date_text(seed, name)[13] == ':',
        modify_date_text(seed, name)[16] == ':',
{
}

/// Only the concatenation of seed and name counts: where it is the same, so is the date.
pub proof fn law_date_depends_on_key(
    seed: Seq<char>,
    name: Seq<char>,
    other_seed: Seq<char>,
    other_name: Seq<char>,
)
    requires
        date_key(seed, name) == date_key(other_seed, other_name),
    ensures
        modify_date_text(seed, name) == modify_date_text(other_seed, other_name),
{
}

/// Without a seed the date is that of the name alone.
pub proof fn law_date_without_seed(name: Seq<char>)
    ensures
        modify_date_text(Seq::empty(), name) == ModifyDate::of_hash(
            fnv1a(encode_utf8(name)),
        ).text(),
{
    assert(date_key(Seq::empty(), name) =~= encode_utf8(name));
}

} // verus!

//! A MIDI key number and its textual form `"<name> <octave>"`, where the
//! octave is the key number divided by twelve, less one, and the name runs
//! through the twelve pitch classes. Parsing accepts the sharp spelling,
//! the flat spelling, and the combined `"C#/Db"` form of each black key.

use vstd::prelude::*;

use crate::error::ParseError;
use vstd::string::StrSliceExecFns;

verus! {

/// A MIDI key number. The textual codec only produces and accepts values
/// in 0..=127; a raw wire byte may carry any value.
#[derive(Copy, Clone, Debug, Default, PartialEq, Eq, Structural)]
pub struct Note {
    pub value: u8,
}

/// How many spaces a character run holds.
pub open spec fn count_spaces(s: Seq<char>) -> int
    decreases s.len(),
{
    if s.len() == 0 {
        0
    } else {
        (if s[0] == ' ' {
            1int
        } else {
            0int
        }) + count_spaces(s.drop_first())
    }
}

/// The index of the first space, or the length if there is none.
pub open spec fn first_space(s: Seq<char>) -> int
    decreases s.len(),
{
    if s.len() == 0 {
        0
    } else if s[0] == ' ' {
        0
    } else {
        1 + first_space(s.drop_first())
    }
}

/// A decimal digit.
pub open spec fn is_digit_char(c: char) -> bool {
    48 <= c as u32 <= 57
}

/// Nothing but decimal digits.
pub open spec fn all_digits(s: Seq<char>) -> bool {
    forall|i: int| 0 <= i < s.len() ==> is_digit_char(s[i])
}

/// The number a run of decimal digits writes.
pub open spec fn digits_val(s: Seq<char>) -> int
    decreases s.len(),
{
    if s.len() == 0 {
        0
    } else {
        digits_val(s.drop_last()) * 10 + (s.last() as u32 - 48)
    }
}

/// The integer a character run writes: an optional single sign, then at
/// least one digit.
pub open spec fn spec_parse_int(s: Seq<char>) -> Option<int> {
    if s.len() >= 1 && (s[0] == '-' || s[0] == '+') {
        if s.len() >= 2 && all_digits(s.drop_first()) {
            if s[0] == '-' {
                Some(-digits_val(s.drop_first()))
            } else {
                Some(digits_val(s.drop_first()))
            }
        } else {
            None
        }
    } else if s.len() >= 1 && all_digits(s) {
        Some(digits_val(s))
    } else {
        None
    }
}

/// The table of accepted note spellings: each pitch class by its combined
/// form, its sharp form, its flat form, or its bare letter.
pub open spec fn spec_pitch_class(name: Seq<char>) -> Option<u8> {
    if name == seq!['C'] {
        Some(0u8)
    } else if name == seq!['C', '#', '/', 'D', 'b'] || name == seq!['C', '#'] || name == seq![
        'D',
        'b',
    ] {
        Some(1u8)
    } else if name == seq!['D'] {
        Some(2u8)
    } else if name == seq!['D', '#', '/', 'E', 'b'] || name == seq!['D', '#'] || name == seq![
        'E',
        'b',
    ] {
        Some(3u8)
    } else if name == seq!['E'] {
        Some(4u8)
    } else if name == seq!['F'] {
        Some(5u8)
    } else if name == seq!['F', '#', '/', 'G', 'b'] || name == seq!['F', '#'] || name == seq![
        'G',
        'b',
    ] {
        Some(6u8)
    } else if name == seq!['G'] {
        Some(7u8)
    } else if name == seq!['G', '#', '/', 'A', 'b'] || name == seq!['G', '#'] || name == seq![
        'A',
        'b',
    ] {
        Some(8u8)
    } else if name == seq!['A'] {
        Some(9u8)
    } else if name == seq!['A', '#', '/', 'B', 'b'] || name == seq!['A', '#'] || name == seq![
        'B',
        'b',
    ] {
        Some(10u8)
    } else if name == seq!['B'] {
        Some(11u8)
    } else {
        None
    }
}

/// What parsing a note string yields: the key number, or the exact error.
/// The string must hold exactly one space; the left part must be in the
/// spelling table; the right part must be an integer octave that puts
/// `(octave + 1) * 12 + pitch class` inside 0..=127.
pub open spec fn spec_parse_note(s: Seq<char>) -> Result<u8, ParseError> {
    if count_spaces(s) != 1 {
        Err(ParseError::NoteFormat)
    } else {
        let name = s.take(first_space(s));
        let oct = s.skip(first_space(s) + 1);
        match spec_pitch_class(name) {
            None => Err(ParseError::NoteNameUnknown),
            Some(pc) => match spec_parse_int(oct) {
                None => Err(ParseError::NoteOctaveInvalid),
                Some(o) => if 0 <= (o + 1) * 12 + pc <= 127 {
                    Ok(((o + 1) * 12 + pc) as u8)
                } else {
                    Err(ParseError::NoteOctaveInvalid)
                },
            },
        }
    }
}

/// The canonical spelling of each pitch class, black keys in their
/// combined form.
pub open spec fn pitch_class_name(pc: int) -> Seq<char>
    recommends
        0 <= pc < 12,
{
    if pc == 0 {
        seq!['C']
    } else if pc == 1 {
        seq!['C', '#', '/', 'D', 'b']
    } else if pc == 2 {
        seq!['D']
    } else if pc == 3 {
        seq!['D', '#', '/', 'E', 'b']
    } else if pc == 4 {
        seq!['E']
    } else if pc == 5 {
        seq!['F']
    } else if pc == 6 {
        seq!['F', '#', '/', 'G', 'b']
    } else if pc == 7 {
        seq!['G']
    } else if pc == 8 {
        seq!['G', '#', '/', 'A', 'b']
    } else if pc == 9 {
        seq!['A']
    } else if pc == 10 {
        seq!['A', '#', '/', 'B', 'b']
    } else {
        seq!['B']
    }
}

/// The decimal form of an octave; a key number below 256 puts it in
/// -1..=20.
pub open spec fn spec_octave_str(o: int) -> Seq<char>
    recommends
        -1 <= o <= 20,
{
    if o == -1 {
        seq!['-', '1']
    } else if o == 0 {
        seq!['0']
    } else if o == 1 {
        seq!['1']
    } else if o == 2 {
        seq!['2']
    } else if o == 3 {
        seq!['3']
    } else if o == 4 {
        seq!['4']
    } else if o == 5 {
        seq!['5']
    } else if o == 6 {
        seq!['6']
    } else if o == 7 {
        seq!['7']
    } else if o == 8 {
        seq!['8']
    } else if o == 9 {
        seq!['9']
    } else if o == 10 {
        seq!['1', '0']
    } else if o == 11 {
        seq!['1', '1']
    } else if o == 12 {
        seq!['1', '2']
    } else if o == 13 {
        seq!['1', '3']
    } else if o == 14 {
        seq!['1', '4']
    } else if o == 15 {
        seq!['1', '5']
    } else if o == 16 {
        seq!['1', '6']
    } else if o == 17 {
        seq!['1', '7']
    } else if o == 18 {
        seq!['1', '8']
    } else if o == 19 {
        seq!['1', '9']
    } else {
        seq!['2', '0']
    }
}

/// The textual form of a key number: canonical name, one space, octave.
pub open spec fn spec_format_note(v: u8) -> Seq<char> {
    pitch_class_name(v as int % 12) + seq![' '] + spec_octave_str(v as int / 12 - 1)
}

/// A run without spaces holds none.
proof fn lemma_count_spaces_none(s: Seq<char>)
    requires
        forall|j: int| 0 <= j < s.len() ==> s[j] != ' ',
    ensures
        count_spaces(s) == 0,
    decreases s.len(),
{
    if s.len() > 0 {
        lemma_count_spaces_none(s.drop_first());
    }
}

/// A run with a space at one index and none elsewhere holds exactly one,
/// and that index is the first.
proof fn lemma_count_spaces_single(s: Seq<char>, i: int)
    requires
        0 <= i < s.len(),
        s[i] == ' ',
        forall|j: int| 0 <= j < s.len() && j != i ==> s[j] != ' ',
    ensures
        count_spaces(s) == 1,
        first_space(s) == i,
    decreases s.len(),
{
    if i == 0 {
        lemma_count_spaces_none(s.drop_first());
    } else {
        lemma_count_spaces_single(s.drop_first(), i - 1);
    }
}

/// A space count is never negative.
proof fn lemma_count_spaces_nonneg(s: Seq<char>)
    ensures
        count_spaces(s) >= 0,
    decreases s.len(),
{
    if s.len() > 0 {
        lemma_count_spaces_nonneg(s.drop_first());
    }
}

/// A run with a space holds at least one.
proof fn lemma_count_spaces_some(s: Seq<char>, i: int)
    requires
        0 <= i < s.len(),
        s[i] == ' ',
    ensures
        count_spaces(s) >= 1,
    decreases s.len(),
{
    if i > 0 {
        lemma_count_spaces_some(s.drop_first(), i - 1);
    } else {
        lemma_count_spaces_nonneg(s.drop_first());
    }
}

/// A run with spaces at two indices holds at least two.
proof fn lemma_count_spaces_two(s: Seq<char>, i: int, k: int)
    requires
        0 <= i < k < s.len(),
        s[i] == ' ',
        s[k] == ' ',
    ensures
        count_spaces(s) >= 2,
    decreases s.len(),
{
    if i == 0 {
        lemma_count_spaces_some(s.drop_first(), k - 1);
    } else {
        lemma_count_spaces_two(s.drop_first(), i - 1, k - 1);
    }
}

/// Looks the name part of a note string up in the spelling table.
fn pitch_class_from(s: &str, sp: usize) -> (r: Option<u8>)
    requires
        sp <= s@.len(),
    ensures
        r == spec_pitch_class(s@.take(sp as int)),
        r matches Some(p) ==> p < 12,
{
    let ghost name = s@.take(sp as int);
    if sp == 1 {
        let c0 = s.get_char(0);
        proof {
            assert(name.len() == 1 && name[0] == c0);
            assert(name =~= seq![c0]);
        }
        match c0 {
            'C' => Some(0),
            'D' => Some(2),
            'E' => Some(4),
            'F' => Some(5),
            'G' => Some(7),
            'A' => Some(9),
            'B' => Some(11),
            _ => None,
        }
    } else if sp == 2 {
        let c0 = s.get_char(0);
        let c1 = s.get_char(1);
        proof {
            assert(name.len() == 2 && name[0] == c0 && name[1] == c1);
            assert(name =~= seq![c0, c1]);
        }
        if c1 == '#' {
            match c0 {
                'C' => Some(1),
                'D' => Some(3),
                'F' => Some(6),
                'G' => Some(8),
                'A' => Some(10),
                _ => None,
            }
        } else if c1 == 'b' {
            match c0 {
                'D' => Some(1),
                'E' => Some(3),
                'G' => Some(6),
                'A' => Some(8),
                'B' => Some(10),
                _ => None,
            }
        } else {
            None
        }
    } else if sp == 5 {
        let c0 = s.get_char(0);
        let c1 = s.get_char(1);
        let c2 = s.get_char(2);
        let c3 = s.get_char(3);
        let c4 = s.get_char(4);
        proof {
            assert(name.len() == 5 && name[0] == c0 && name[1] == c1 && name[2] == c2 && name[3]
                == c3 && name[4] == c4);
            assert(name =~= seq![c0, c1, c2, c3, c4]);
        }
        if c1 == '#' && c2 == '/' && c4 == 'b' {
            if c0 == 'C' && c3 == 'D' {
                Some(1)
            } else if c0 == 'D' && c3 == 'E' {
                Some(3)
            } else if c0 == 'F' && c3 == 'G' {
                Some(6)
            } else if c0 == 'G' && c3 == 'A' {
                Some(8)
            } else if c0 == 'A' && c3 == 'B' {
                Some(10)
            } else {
                None
            }
        } else {
            None
        }
    } else {
        proof {
            assert(name.len() == sp);
        }
        None
    }
}

impl Note {
    /// Parses `"<name> <octave>"` into a key number, reporting exactly why
    /// a string is refused.
    #[verifier::loop_isolation(false)]
    pub fn from_str(s: &str) -> (r: Result<Note, ParseError>)
        ensures
            r == (match spec_parse_note(s@) {
                Ok(v) => Ok::<Note, ParseError>(Note { value: v }),
                Err(e) => Err::<Note, ParseError>(e),
            }),
    {
        let n = s.unicode_len();
        // Find the one space that separates name from octave.
        let mut sp: usize = n;
        let mut second: bool = false;
        let mut i: usize = 0;
        while i < n
            invariant
                i <= n,
                n == s@.len(),
                sp <= n,
                sp == n ==> !second && (forall|j: int| 0 <= j < i ==> s@[j] != ' '),
                sp < n ==> sp < i && s@[sp as int] == ' ' && (forall|j: int|
                    0 <= j < sp ==> s@[j] != ' '),
                second ==> sp < n && (exists|k: int| sp < k < i && s@[k] == ' '),
                sp < n && !second ==> (forall|j: int| sp < j < i ==> s@[j] != ' '),
            decreases n - i,
        {
            let c = s.get_char(i);
            if c == ' ' {
                if sp == n {
                    sp = i;
                } else {
                    second = true;
                }
            }
            i = i + 1;
        }
        if sp == n {
            proof {
                lemma_count_spaces_none(s@);
            }
            return Err(ParseError::NoteFormat);
        }
        if second {
            proof {
                let k = choose|k: int| sp < k < n && s@[k] == ' ';
                lemma_count_spaces_two(s@, sp as int, k);
            }
            return Err(ParseError::NoteFormat);
        }
        proof {
            lemma_count_spaces_single(s@, sp as int);
        }
        // The name part.
        let pc: u8 = match pitch_class_from(s, sp) {
            Some(p) => p,
            None => {
                return Err(ParseError::NoteNameUnknown);
            },
        };
        // The octave part: an optional sign, then digits.
        let ghost oct = s@.skip(sp as int + 1);
        let oct_start = sp + 1;
        if oct_start >= n {
            proof {
                assert(oct.len() == 0);
            }
            return Err(ParseError::NoteOctaveInvalid);
        }
        let c0 = s.get_char(oct_start);
        let signed = c0 == '-' || c0 == '+';
        let neg = c0 == '-';
        let dig_start = if signed {
            oct_start + 1
        } else {
            oct_start
        };
        proof {
            assert(oct[0] == s@[oct_start as int]);
        }
        if dig_start >= n {
            // A sign with nothing after it.
            proof {
                assert(oct.len() == 1);
            }
            return Err(ParseError::NoteOctaveInvalid);
        }
        let ghost digs = s@.skip(dig_start as int);
        proof {
            if signed {
                assert(oct.drop_first() =~= digs);
            } else {
                assert(oct =~= digs);
            }
        }
        let mut acc: u32 = 0;
        let mut over: bool = false;
        let mut j: usize = dig_start;
        while j < n
            invariant
                dig_start <= j <= n,
                n == s@.len(),
                dig_start < n,
                digs == s@.skip(dig_start as int),
                all_digits(digs.take(j - dig_start)),
                !over ==> acc <= 127 && acc == digits_val(digs.take(j - dig_start)),
                over ==> digits_val(digs.take(j - dig_start)) > 127,
            decreases n - j,
        {
            let c = s.get_char(j);
            let cv = c as u32;
            if cv < 48 || cv > 57 {
                proof {
                    assert(digs[j - dig_start] == c);
                    assert(!all_digits(digs));
                }
                return Err(ParseError::NoteOctaveInvalid);
            }
            let d = cv - 48;
            proof {
                let t = digs.take(j - dig_start + 1);
                assert(t.drop_last() =~= digs.take(j - dig_start));
                assert(t.last() == c);
            }
            if over {
            } else {
                let nacc = acc * 10 + d;
                if nacc > 127 {
                    over = true;
                } else {
                    acc = nacc;
                }
            }
            j = j + 1;
        }
        proof {
            assert(digs.take(n - dig_start) =~= digs);
        }
        // Combine pitch class and octave into the key number.
        if over {
            return Err(ParseError::NoteOctaveInvalid);
        }
        let v: i32 = if neg {
            (1 - acc as i32) * 12 + pc as i32
        } else {
            (acc as i32 + 1) * 12 + pc as i32
        };
        if 0 <= v && v <= 127 {
            Ok(Note { value: v as u8 })
        } else {
            Err(ParseError::NoteOctaveInvalid)
        }
    }

    /// Formats the key number as `"<name> <octave>"`, with the canonical
    /// spelling of its pitch class.
    pub fn as_str(&self) -> (r: String)
        ensures
            r@ == spec_format_note(self.value),
    {
        let pc: u8 = self.value % 12;
        let name_lit: &str = if pc == 0 {
            "C"
        } else if pc == 1 {
            "C#/Db"
        } else if pc == 2 {
            "D"
        } else if pc == 3 {
            "D#/Eb"
        } else if pc == 4 {
            "E"
        } else if pc == 5 {
            "F"
        } else if pc == 6 {
            "F#/Gb"
        } else if pc == 7 {
            "G"
        } else if pc == 8 {
            "G#/Ab"
        } else if pc == 9 {
            "A"
        } else if pc == 10 {
            "A#/Bb"
        } else {
            "B"
        };
        proof {
            reveal_strlit("C");
            reveal_strlit("C#/Db");
            reveal_strlit("D");
            reveal_strlit("D#/Eb");
            reveal_strlit("E");
            reveal_strlit("F");
            reveal_strlit("F#/Gb");
            reveal_strlit("G");
            reveal_strlit("G#/Ab");
            reveal_strlit("A");
            reveal_strlit("A#/Bb");
            reveal_strlit("B");
            assert(name_lit@ =~= pitch_class_name(pc as int));
        }
        let o: i32 = (self.value / 12) as i32 - 1;
        let oct_lit: &str = if o == -1 {
            "-1"
        } else if o == 0 {
            "0"
        } else if o == 1 {
            "1"
        } else if o == 2 {
            "2"
        } else if o == 3 {
            "3"
        } else if o == 4 {
            "4"
        } else if o == 5 {
            "5"
        } else if o == 6 {
            "6"
        } else if o == 7 {
            "7"
        } else if o == 8 {
            "8"
        } else if o == 9 {
            "9"
        } else if o == 10 {
            "10"
        } else if o == 11 {
            "11"
        } else if o == 12 {
            "12"
        } else if o == 13 {
            "13"
        } else if o == 14 {
            "14"
        } else if o == 15 {
            "15"
        } else if o == 16 {
            "16"
        } else if o == 17 {
            "17"
        } else if o == 18 {
            "18"
        } else if o == 19 {
            "19"
        } else {
            "20"
        };
        proof {
            reveal_strlit("-1");
            reveal_strlit("0");
            reveal_strlit("1");
            reveal_strlit("2");
            reveal_strlit("3");
            reveal_strlit("4");
            reveal_strlit("5");
            reveal_strlit("6");
            reveal_strlit("7");
            reveal_strlit("8");
            reveal_strlit("9");
            reveal_strlit("10");
            reveal_strlit("11");
            reveal_strlit("12");
            reveal_strlit("13");
            reveal_strlit("14");
            reveal_strlit("15");
            reveal_strlit("16");
            reveal_strlit("17");
            reveal_strlit("18");
            reveal_strlit("19");
            reveal_strlit("20");
            assert(oct_lit@ =~= spec_octave_str(o as int));
        }
        let mut out = String::from_str(name_lit);
        out.append(" ");
        out.append(oct_lit);
        proof {
            reveal_strlit(" ");
            assert(" "@ =~= seq![' ']);
            assert(out@ =~= spec_format_note(self.value));
        }
        out
    }
}

/// A one-digit run writes its digit.
proof fn lemma_digits_val_single(c: char)
    ensures
        digits_val(seq![c]) == c as u32 - 48,
{
    assert(seq![c].drop_last() =~= Seq::<char>::empty());
    assert(seq![c].last() == c);
    assert(digits_val(Seq::<char>::empty()) == 0);
}

/// Formatting a key number and parsing the result restores the number:
/// the textual codec round-trips over the whole MIDI key range.
pub proof fn lemma_note_roundtrip(v: u8)
    requires
        v <= 127,
    ensures
        spec_parse_note(spec_format_note(v)) == Ok::<u8, ParseError>(v),
{
    let pc = v as int % 12;
    let o = v as int / 12 - 1;
    let name = pitch_class_name(pc);
    let oct = spec_octave_str(o);
    let s = spec_format_note(v);
    let nl = name.len() as int;
    assert(0 <= pc < 12);
    assert(-1 <= o <= 9);
    assert(forall|j: int| 0 <= j < nl ==> name[j] != ' ');
    assert(forall|j: int| 0 <= j < oct.len() ==> oct[j] != ' ');
    assert(s[nl] == ' ');
    assert(forall|j: int| 0 <= j < s.len() && j != nl ==> s[j] != ' ');
    lemma_count_spaces_single(s, nl);
    assert(s.take(nl) =~= name);
    assert(s.skip(nl + 1) =~= oct);
    assert(spec_pitch_class(name) == Some(pc as u8));
    if o == -1 {
        assert(oct[0] == '-');
        assert(oct.drop_first() =~= seq!['1']);
        assert(all_digits(seq!['1']));
        lemma_digits_val_single('1');
        assert(spec_parse_int(oct) == Some(-1int));
    } else {
        let c = oct[0];
        assert(oct =~= seq![c]);
        assert(is_digit_char(c));
        assert(c != '-' && c != '+');
        lemma_digits_val_single(c);
        assert(digits_val(oct) == o);
        assert(spec_parse_int(oct) == Some(o));
    }
    assert((o + 1) * 12 + pc == v) by {
        vstd::arithmetic::div_mod::lemma_fundamental_div_mod(v as int, 12);
    };
}

} // verus!

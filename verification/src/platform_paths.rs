//! Where the game's library lies: the executable's directory and the UTF-16
//! paths built from it.
use vstd::prelude::*;
use crate::win32::{BACKSLASH, MAX_PATH};
use crate::win32_platform::Win32Platform;

verus! {

/// The UTF-16 code units of one character.
pub open spec fn utf16_of_char(c: char) -> Seq<u16> {
    let v = c as u32;
    if v < 0x10000 {
        seq![v as u16]
    } else {
        seq![(0xD800 + (v - 0x10000) / 0x400) as u16, (0xDC00 + (v - 0x10000) % 0x400) as u16]
    }
}

/// The UTF-16 encoding of a character sequence.
pub open spec fn utf16_encode(s: Seq<char>) -> Seq<u16>
    decreases s.len(),
{
    if s.len() == 0 {
        Seq::empty()
    } else {
        utf16_encode(s.drop_last()) + utf16_of_char(s.last())
    }
}

/// The string's characters as UTF-16 code units, each character below
/// U+10000 as one unit and every other as a surrogate pair (what
/// `str::encode_utf16` yields).
pub fn encode_utf16(s: &str) -> (units: Vec<u16>)
    ensures
        units@ == utf16_encode(s@),
{
    let mut units: Vec<u16> = Vec::new();
    for c in it: s.chars()
        invariant
            it.seq() == s@,
            units@ == utf16_encode(s@.take(it.index() as int)),
    {
        let ghost done = s@.take(it.index() as int);
        proof {
            assert(s@.take(it.index() + 1).drop_last() =~= done);
            assert(s@.take(it.index() + 1).last() == c);
            vstd::utf8::char_is_scalar(c);
        }
        let v: u32 = c as u32;
        if v < 0x10000 {
            units.push(v as u16);
        } else {
            let w: u32 = v - 0x10000;
            units.push((0xD800 + w / 0x400) as u16);
            units.push((0xDC00 + w % 0x400) as u16);
        }
        proof {
            assert(units@ =~= utf16_encode(done) + utf16_of_char(c));
        }
    }
    proof {
        assert(s@.take(s@.len() as int) =~= s@);
    }
    units
}

/// Each character's code units decode back to it: a character below U+10000
/// is one unit equal to its code, any other is a high surrogate
/// (0xD800..0xDBFF) followed by a low surrogate (0xDC00..0xDFFF) with
/// `0x10000 + (high - 0xD800) * 0x400 + (low - 0xDC00)` equal to its code.
pub proof fn lemma_utf16_of_char_decodes(c: char)
    ensures
        (c as u32) < 0x10000 ==> utf16_of_char(c) == seq![c as u32 as u16]
            && (c as u32 as u16) as u32 == c as u32,
        (c as u32) >= 0x10000 ==> {
            let units = utf16_of_char(c);
            &&& units.len() == 2
            &&& 0xD800 <= units[0] <= 0xDBFF
            &&& 0xDC00 <= units[1] <= 0xDFFF
            &&& 0x10000 + (units[0] - 0xD800) * 0x400 + (units[1] - 0xDC00) == c as u32
        },
{
    vstd::utf8::char_is_scalar(c);
    let v = c as u32;
    if v >= 0x10000 {
        let w = v - 0x10000;
        assert(w / 0x400 <= 0x3FF);
        assert(w % 0x400 < 0x400);
        assert(w == (w / 0x400) * 0x400 + w % 0x400);
    }
}

/// Encoding a concatenation is concatenating the encodings, and a single
/// character is encoded as its own units.
pub proof fn lemma_utf16_concat(s: Seq<char>, t: Seq<char>)
    ensures
        utf16_encode(s + t) == utf16_encode(s) + utf16_encode(t),
        forall|c: char| #[trigger] utf16_encode(seq![c]) == utf16_of_char(c),
    decreases t.len(),
{
    assert forall|c: char| #[trigger] utf16_encode(seq![c]) == utf16_of_char(c) by {
        assert(seq![c].drop_last() =~= Seq::<char>::empty());
        assert(utf16_encode(Seq::<char>::empty()) + utf16_of_char(c) =~= utf16_of_char(c));
    }
    if t.len() == 0 {
        assert(s + t =~= s);
        assert(utf16_encode(s) + utf16_encode(t) =~= utf16_encode(s));
    } else {
        lemma_utf16_concat(s, t.drop_last());
        assert((s + t).drop_last() =~= s + t.drop_last());
        assert((s + t).last() == t.last());
        assert(utf16_encode(s + t) == utf16_encode(s + t.drop_last()) + utf16_of_char(t.last()));
        assert(utf16_encode(s) + utf16_encode(t) =~= utf16_encode(s) + utf16_encode(t.drop_last())
            + utf16_of_char(t.last()));
    }
}

/// A string of characters below U+0080 is encoded unit for unit.
pub proof fn lemma_utf16_ascii(s: Seq<char>)
    requires
        forall|i: int| 0 <= i < s.len() ==> (s[i] as u32) < 0x80,
    ensures
        utf16_encode(s).len() == s.len(),
        forall|i: int| 0 <= i < s.len() ==> utf16_encode(s)[i] == s[i] as u32,
    decreases s.len(),
{
    if s.len() > 0 {
        let rest = s.drop_last();
        assert forall|i: int| 0 <= i < rest.len() implies (rest[i] as u32) < 0x80 by {
            assert(rest[i] == s[i]);
        }
        lemma_utf16_ascii(rest);
        let tail = utf16_of_char(s.last());
        let v = s.last() as u32;
        assert(v < 0x80);
        assert(v as u16 == v);
        assert(tail.len() == 1 && tail[0] == v);
        assert(utf16_encode(s) == utf16_encode(rest) + tail);
        assert forall|i: int| 0 <= i < s.len() implies utf16_encode(s)[i] == s[i] as u32 by {
            if i < rest.len() {
                assert(rest[i] == s[i]);
            }
        }
    }
}

/// Every character takes one or two code units.
pub proof fn lemma_utf16_length(s: Seq<char>)
    ensures
        s.len() <= utf16_encode(s).len() <= 2 * s.len(),
    decreases s.len(),
{
    if s.len() > 0 {
        lemma_utf16_length(s.drop_last());
    }
}

/// The length of the directory part of a file name: one past its last
/// backslash, or 0 when it has none.
pub open spec fn directory_end(name: Seq<u16>) -> nat
    decreases name.len(),
{
    if name.len() == 0 {
        0
    } else if name.last() == BACKSLASH {
        name.len()
    } else {
        directory_end(name.drop_last())
    }
}

/// The directory part of a name ends right after a backslash (or is empty),
/// and no backslash follows it.
pub proof fn lemma_directory_end(name: Seq<u16>)
    ensures
        directory_end(name) <= name.len(),
        directory_end(name) > 0 ==> name[directory_end(name) - 1] == BACKSLASH,
        forall|i: int| directory_end(name) <= i < name.len() ==> name[i] != BACKSLASH,
    decreases name.len(),
{
    if name.len() > 0 && name.last() != BACKSLASH {
        let rest = name.drop_last();
        lemma_directory_end(rest);
        assert forall|i: int| directory_end(name) <= i < name.len() implies name[i] != BACKSLASH by {
            if i < rest.len() {
                assert(name[i] == rest[i]);
            }
        }
    }
}

impl Win32Platform {
    /// Records the executable's full file name (as `GetModuleFileNameW` fills
    /// it) and where its directory part ends.
    pub fn set_exe_filename(&mut self, filename: [u16; 260])
        ensures
            *final(self) == (Win32Platform {
                exe_filename: filename,
                one_past_last_exe_file_name_slash: directory_end(filename@) as usize,
                ..*old(self)
            }),
            final(self).one_past_last_exe_file_name_slash <= MAX_PATH,
            old(self).wf() ==> final(self).wf(),
    {
        self.exe_filename = filename;
        let mut end: usize = MAX_PATH;
        proof {
            assert(filename@.subrange(0, MAX_PATH as int) =~= filename@);
        }
        while end > 0 && filename[end - 1] != BACKSLASH
            invariant
                end <= MAX_PATH,
                directory_end(filename@) == directory_end(filename@.subrange(0, end as int)),
            decreases end,
        {
            proof {
                assert(filename@.subrange(0, end as int).drop_last() =~= filename@.subrange(
                    0,
                    end - 1,
                ));
            }
            end = end - 1;
        }
        proof {
            let prefix = filename@.subrange(0, end as int);
            if end > 0 {
                assert(prefix.last() == filename@[end - 1]);
            } else {
                assert(prefix.len() == 0);
            }
        }
        self.one_past_last_exe_file_name_slash = end;
    }

    /// The null-terminated UTF-16 path of `filename` in the executable's
    /// directory.
    pub fn build_cpath_from_exe_dir_utf16(&self, filename: &str) -> (path: Vec<u16>)
        requires
            self.wf(),
        ensures
            path@ == self.exe_filename@.subrange(
                0,
                self.one_past_last_exe_file_name_slash as int,
            ) + utf16_encode(filename@) + seq![0u16],
    {
        let mut result: Vec<u16> = Vec::new();
        let end: usize = self.one_past_last_exe_file_name_slash;
        for i in 0..end
            invariant
                end <= MAX_PATH,
                end == self.one_past_last_exe_file_name_slash,
                result@ == self.exe_filename@.subrange(0, i as int),
        {
            result.push(self.exe_filename[i]);
            proof {
                assert(result@ =~= self.exe_filename@.subrange(0, i + 1));
            }
        }
        let mut units = encode_utf16(filename);
        result.append(&mut units);
        result.push(0);
        result
    }
}

} // verus!

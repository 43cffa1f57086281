//! The header state of the PLY mesh format.

use vstd::prelude::*;

verus! {

#[derive(Debug)]
pub enum Error {
    InvalidHeader,
    Io(std::io::Error),
    InvalidDataFormat,
    UnknownStatement,
}

/// How the vertex data of a PLY file is encoded.
#[derive(Clone, Copy, Debug, PartialEq, Eq, Structural)]
pub enum Format {
    BinaryLittleEndian,
    BinaryBigEndian,
}

/// What the PLY header has told so far: where each vertex property sits
/// within a vertex record, and how the data is encoded.
#[derive(Clone, Copy, Debug, PartialEq, Eq, Structural)]
pub struct ParserState {
    pub x_offset: usize,
    pub y_offset: usize,
    pub z_offset: usize,
    pub nx_offset: usize,
    pub ny_offset: usize,
    pub nz_offset: usize,
    pub u_offset: usize,
    pub v_offset: usize,
    pub parsed_offset: usize,
    pub format: Format,
}

impl Default for ParserState {
    fn default() -> (r: Self)
        ensures
            r == (ParserState {
                x_offset: 0,
                y_offset: 0,
                z_offset: 0,
                nx_offset: 0,
                ny_offset: 0,
                nz_offset: 0,
                u_offset: 0,
                v_offset: 0,
                parsed_offset: 0,
                format: Format::BinaryLittleEndian,
            }),
    {
        ParserState {
            x_offset: 0,
            y_offset: 0,
            z_offset: 0,
            nx_offset: 0,
            ny_offset: 0,
            nz_offset: 0,
            u_offset: 0,
            v_offset: 0,
            parsed_offset: 0,
            format: Format::BinaryLittleEndian,
        }
    }
}

/// The bytes `u8::is_ascii_whitespace` accepts.
pub open spec fn is_ascii_space(b: u8) -> bool {
    b == 0x20 || b == 0x09 || b == 0x0A || b == 0x0C || b == 0x0D
}

/// The first index at or after `lo` that holds ASCII white space, or the length.
pub open spec fn next_space(s: Seq<u8>, lo: int) -> int
    decreases s.len() - lo,
{
    if lo >= s.len() {
        s.len() as int
    } else if is_ascii_space(s[lo]) {
        lo
    } else {
        next_space(s, lo + 1)
    }
}

/// The second white-space separated field of a line (fields may be empty,
/// as with `split`), if the line has one.
pub open spec fn second_field(line: Seq<u8>) -> Option<Seq<u8>> {
    let first_end = next_space(line, 0);
    if first_end >= line.len() {
        None
    } else {
        Some(line.subrange(first_end + 1, next_space(line, first_end + 1)))
    }
}

pub open spec fn format_named(name: Seq<u8>) -> Option<Format> {
    if name == "binary_little_endian"@.map_values(|c: char| c as u8) {
        Some(Format::BinaryLittleEndian)
    } else if name == "binary_big_endian"@.map_values(|c: char| c as u8) {
        Some(Format::BinaryBigEndian)
    } else {
        None
    }
}

fn is_ascii_space_byte(b: u8) -> (r: bool)
    ensures
        r == is_ascii_space(b),
{
    b == 0x20 || b == 0x09 || b == 0x0A || b == 0x0C || b == 0x0D
}

fn find_space(s: &[u8], lo: usize) -> (r: usize)
    requires
        lo <= s@.len(),
    ensures
        r == next_space(s@, lo as int),
        lo <= r <= s@.len(),
{
    let mut i = lo;
    while i < s.len() && !is_ascii_space_byte(s[i])
        invariant
            lo <= i <= s@.len(),
            next_space(s@, lo as int) == next_space(s@, i as int),
        decreases s@.len() - i,
    {
        i = i + 1;
    }
    i
}

fn bytes_equal(s: &[u8], lo: usize, hi: usize, expected: &str) -> (r: bool)
    requires
        lo <= hi <= s@.len(),
        expected.is_ascii(),
    ensures
        r == (s@.subrange(lo as int, hi as int) == expected@.map_values(|c: char| c as u8)),
{
    let ghost want = expected@.map_values(|c: char| c as u8);
    let n = expected.unicode_len();
    if hi - lo != n {
        assert(s@.subrange(lo as int, hi as int).len() != want.len());
        return false;
    }
    let mut i: usize = 0;
    while i < n
        invariant
            lo <= hi <= s@.len(),
            hi - lo == n,
            n == expected@.len(),
            expected.is_ascii(),
            want == expected@.map_values(|c: char| c as u8),
            i <= n,
            forall|k: int| 0 <= k < i ==> s@[lo + k] == #[trigger] want[k],
        decreases n - i,
    {
        if s[lo + i] != expected.get_ascii(i) {
            assert(s@.subrange(lo as int, hi as int)[i as int] != want[i as int]);
            return false;
        }
        i = i + 1;
    }
    assert(s@.subrange(lo as int, hi as int) =~= want);
    true
}

impl ParserState {
    /// Reads the encoding from a `format <encoding> <version>` header line.
    /// A line without a second field, or with an encoding other than
    /// `binary_little_endian` or `binary_big_endian`, gives
    /// `InvalidDataFormat` and leaves the state as it was.
    pub fn set_format(&mut self, format_line: &[u8]) -> (r: Result<(), Error>)
        ensures
            match second_field(format_line@) {
                Some(name) => match format_named(name) {
                    Some(f) => r is Ok && *final(self) == ParserState { format: f, ..*old(self) },
                    None => r matches Err(Error::InvalidDataFormat) && *final(self) == *old(self),
                },
                None => r matches Err(Error::InvalidDataFormat) && *final(self) == *old(self),
            },
    {
        let first_end = find_space(format_line, 0);
        if first_end >= format_line.len() {
            return Err(Error::InvalidDataFormat);
        }
        let start = first_end + 1;
        let end = find_space(format_line, start);
        proof {
            reveal_strlit("binary_little_endian");
            reveal_strlit("binary_big_endian");
        }
        if bytes_equal(format_line, start, end, "binary_little_endian") {
            self.format = Format::BinaryLittleEndian;
        } else if bytes_equal(format_line, start, end, "binary_big_endian") {
            self.format = Format::BinaryBigEndian;
        } else {
            return Err(Error::InvalidDataFormat);
        }
        Ok(())
    }
}

} // verus!

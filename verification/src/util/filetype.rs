//! Classification of a byte buffer by its leading bytes.
//!
//! A signature is a short pattern over the first bytes of a file: each
//! position either fixes a byte or leaves it open. The table of signatures is
//! fixed; the first signature that a buffer matches decides its type.

use vstd::prelude::*;

verus! {

/// The media formats that the classifier recognises.
#[derive(Clone, Copy, Debug, PartialEq, Eq, Structural)]
pub enum FileType {
    Mp4,
    Webm,
    Mp3,
    Ogg,
    Wav,
    Flac,
    Gif,
    Png,
    Jpg,
    Webp,
}

/// One row of the signature table: the pattern and the type it stands for.
pub struct Signature {
    pub kind: FileType,
    pub pattern: Vec<Option<u8>>,
}

/// The number of leading bytes that classification may look at.
pub const PREFIX_LEN: usize = 12;

/// The length of the shortest pattern in the table.
pub const SHORTEST_SIGNATURE: usize = 2;

/// The number of rows of the signature table.
pub const TABLE_LEN: usize = 13;

/// A pattern position that fixes the byte `b`.
pub open spec fn fixed(b: u8) -> Option<u8> {
    Some(b)
}

/// A pattern position that accepts any byte.
pub open spec fn any() -> Option<u8> {
    None
}

/// The pattern of row `i` of the signature table.
pub open spec fn table_pattern(i: int) -> Seq<Option<u8>> {
    if i == 0 {
        // ISO base media: a box size below 256, then "ftyp"
        seq![fixed(0x00), fixed(0x00), fixed(0x00), any(),
             fixed(0x66), fixed(0x74), fixed(0x79), fixed(0x70)]
    } else if i == 1 {
        // EBML header
        seq![fixed(0x1A), fixed(0x45), fixed(0xDF), fixed(0xA3)]
    } else if i == 2 {
        // "ID3"
        seq![fixed(0x49), fixed(0x44), fixed(0x33)]
    } else if i == 3 {
        // MPEG-1 layer III frame sync
        seq![fixed(0xFF), fixed(0xFB)]
    } else if i == 4 {
        // MPEG-2 layer III frame sync
        seq![fixed(0xFF), fixed(0xF3)]
    } else if i == 5 {
        // MPEG-2 layer III frame sync, protected
        seq![fixed(0xFF), fixed(0xF2)]
    } else if i == 6 {
        // "OggS"
        seq![fixed(0x4F), fixed(0x67), fixed(0x67), fixed(0x53)]
    } else if i == 7 {
        // "RIFF", a chunk size, "WAVE"
        seq![fixed(0x52), fixed(0x49), fixed(0x46), fixed(0x46),
             any(), any(), any(), any(),
             fixed(0x57), fixed(0x41), fixed(0x56), fixed(0x45)]
    } else if i == 8 {
        // "fLaC"
        seq![fixed(0x66), fixed(0x4C), fixed(0x61), fixed(0x43)]
    } else if i == 9 {
        // "GIF8"
        seq![fixed(0x47), fixed(0x49), fixed(0x46), fixed(0x38)]
    } else if i == 10 {
        seq![fixed(0x89), fixed(0x50), fixed(0x4E), fixed(0x47),
             fixed(0x0D), fixed(0x0A), fixed(0x1A), fixed(0x0A)]
    } else if i == 11 {
        seq![fixed(0xFF), fixed(0xD8), fixed(0xFF)]
    } else {
        // "RIFF", a chunk size, "WEBP"
        seq![fixed(0x52), fixed(0x49), fixed(0x46), fixed(0x46),
             any(), any(), any(), any(),
             fixed(0x57), fixed(0x45), fixed(0x42), fixed(0x50)]
    }
}

/// The type that row `i` of the signature table stands for.
pub open spec fn table_kind(i: int) -> FileType {
    if i == 0 {
        FileType::Mp4
    } else if i == 1 {
        FileType::Webm
    } else if 2 <= i <= 5 {
        FileType::Mp3
    } else if i == 6 {
        FileType::Ogg
    } else if i == 7 {
        FileType::Wav
    } else if i == 8 {
        FileType::Flac
    } else if i == 9 {
        FileType::Gif
    } else if i == 10 {
        FileType::Png
    } else if i == 11 {
        FileType::Jpg
    } else {
        FileType::Webp
    }
}

/// Whether the leading bytes of `bytes` fit `pattern`: the buffer is at least
/// as long as the pattern and agrees with it wherever the pattern fixes a byte.
pub open spec fn fits(bytes: Seq<u8>, pattern: Seq<Option<u8>>) -> bool {
    &&& pattern.len() <= bytes.len()
    &&& forall|k: int|
        0 <= k < pattern.len() ==> (#[trigger] pattern[k] matches Some(b) ==> bytes[k] == b)
}

/// The type of the first row at or after `from` that `bytes` matches.
pub open spec fn first_match(bytes: Seq<u8>, from: int) -> Option<FileType>
    decreases TABLE_LEN - from,
{
    if from < 0 || from >= TABLE_LEN {
        None
    } else if fits(bytes, table_pattern(from)) {
        Some(table_kind(from))
    } else {
        first_match(bytes, from + 1)
    }
}

/// What a buffer is classified as: the type of the first matching row, if any.
pub open spec fn classify(bytes: Seq<u8>) -> Option<FileType> {
    first_match(bytes, 0)
}

impl FileType {
    /// The file extension of this type, without a dot.
    pub open spec fn extension(self) -> Seq<char> {
        match self {
            FileType::Mp4 => "mp4"@,
            FileType::Webm => "webm"@,
            FileType::Mp3 => "mp3"@,
            FileType::Ogg => "ogg"@,
            FileType::Wav => "wav"@,
            FileType::Flac => "flac"@,
            FileType::Gif => "gif"@,
            FileType::Png => "png"@,
            FileType::Jpg => "jpg"@,
            FileType::Webp => "webp"@,
        }
    }

    /// The file extension of this type, without a dot.
    pub fn as_str(&self) -> (s: &'static str)
        ensures
            s@ == self.extension(),
    {
        match self {
            FileType::Mp4 => "mp4",
            FileType::Webm => "webm",
            FileType::Mp3 => "mp3",
            FileType::Ogg => "ogg",
            FileType::Wav => "wav",
            FileType::Flac => "flac",
            FileType::Gif => "gif",
            FileType::Png => "png",
            FileType::Jpg => "jpg",
            FileType::Webp => "webp",
        }
    }
}

/// Whether the leading bytes of `bytes` fit `pattern`.
pub fn fits_pattern(bytes: &[u8], pattern: &Vec<Option<u8>>) -> (r: bool)
    ensures
        r == fits(bytes@, pattern@),
{
    if bytes.len() < pattern.len() {
        return false;
    }
    let mut k: usize = 0;
    while k < pattern.len()
        invariant
            k <= pattern.len() <= bytes.len(),
            forall|j: int|
                0 <= j < k ==> (#[trigger] pattern@[j] matches Some(b) ==> bytes@[j] == b),
        decreases pattern.len() - k,
    {
        match pattern[k] {
            Some(b) => {
                if bytes[k] != b {
                    return false;
                }
            },
            None => {},
        }
        k += 1;
    }
    true
}

/// The rows of the signature table, in the order in which they are tried.
pub fn signature_table() -> (table: Vec<Signature>)
    ensures
        table@.len() == TABLE_LEN,
        forall|i: int|
            0 <= i < TABLE_LEN ==> (#[trigger] table@[i]).kind == table_kind(i)
                && table@[i].pattern@ == table_pattern(i),
{
    let mut table: Vec<Signature> = Vec::new();
    table.push(
        Signature {
            kind: FileType::Mp4,
            pattern: vec![
                Some(0x00u8), Some(0x00u8), Some(0x00u8), None,
                Some(0x66u8), Some(0x74u8), Some(0x79u8), Some(0x70u8),
            ],
        },
    );
    table.push(
        Signature {
            kind: FileType::Webm,
            pattern: vec![Some(0x1Au8), Some(0x45u8), Some(0xDFu8), Some(0xA3u8)],
        },
    );
    table.push(
        Signature { kind: FileType::Mp3, pattern: vec![Some(0x49u8), Some(0x44u8), Some(0x33u8)] },
    );
    table.push(Signature { kind: FileType::Mp3, pattern: vec![Some(0xFFu8), Some(0xFBu8)] });
    table.push(Signature { kind: FileType::Mp3, pattern: vec![Some(0xFFu8), Some(0xF3u8)] });
    table.push(Signature { kind: FileType::Mp3, pattern: vec![Some(0xFFu8), Some(0xF2u8)] });
    table.push(
        Signature {
            kind: FileType::Ogg,
            pattern: vec![Some(0x4Fu8), Some(0x67u8), Some(0x67u8), Some(0x53u8)],
        },
    );
    table.push(
        Signature {
            kind: FileType::Wav,
            pattern: vec![
                Some(0x52u8), Some(0x49u8), Some(0x46u8), Some(0x46u8),
                None, None, None, None,
                Some(0x57u8), Some(0x41u8), Some(0x56u8), Some(0x45u8),
            ],
        },
    );
    table.push(
        Signature {
            kind: FileType::Flac,
            pattern: vec![Some(0x66u8), Some(0x4Cu8), Some(0x61u8), Some(0x43u8)],
        },
    );
    table.push(
        Signature {
            kind: FileType::Gif,
            pattern: vec![Some(0x47u8), Some(0x49u8), Some(0x46u8), Some(0x38u8)],
        },
    );
    table.push(
        Signature {
            kind: FileType::Png,
            pattern: vec![
                Some(0x89u8), Some(0x50u8), Some(0x4Eu8), Some(0x47u8),
                Some(0x0Du8), Some(0x0Au8), Some(0x1Au8), Some(0x0Au8),
            ],
        },
    );
    table.push(
        Signature { kind: FileType::Jpg, pattern: vec![Some(0xFFu8), Some(0xD8u8), Some(0xFFu8)] },
    );
    table.push(
        Signature {
            kind: FileType::Webp,
            pattern: vec![
                Some(0x52u8), Some(0x49u8), Some(0x46u8), Some(0x46u8),
                None, None, None, None,
                Some(0x57u8), Some(0x45u8), Some(0x42u8), Some(0x50u8),
            ],
        },
    );
    table
}

/// Classifies a buffer by its leading bytes: the type of the first row of the
/// signature table that the buffer matches, or `None` when it matches no row.
pub fn get_sig(bytes: &[u8]) -> (kind: Option<FileType>)
    ensures
        kind == classify(bytes@),
{
    let table = signature_table();
    let mut i: usize = 0;
    while i < table.len()
        invariant
            i <= table.len() == TABLE_LEN,
            forall|j: int|
                0 <= j < TABLE_LEN ==> (#[trigger] table@[j]).kind == table_kind(j)
                    && table@[j].pattern@ == table_pattern(j),
            classify(bytes@) == first_match(bytes@, i as int),
        decreases table.len() - i,
    {
        if fits_pattern(bytes, &table[i].pattern) {
            return Some(table[i].kind);
        }
        i += 1;
    }
    None
}

/// Every row fixes its first two bytes, and the two RIFF rows fix the tenth:
/// a buffer that matches a row carries those bytes.
proof fn lemma_row_leading_bytes(bytes: Seq<u8>, i: int)
    requires
        0 <= i < TABLE_LEN,
        fits(bytes, table_pattern(i)),
    ensures
        bytes.len() >= SHORTEST_SIGNATURE,
        table_pattern(i)[0] == Some(bytes[0]),
        table_pattern(i)[1] == Some(bytes[1]),
        i == 7 || i == 12 ==> bytes.len() >= PREFIX_LEN && table_pattern(i)[9] == Some(bytes[9]),
{
    let p = table_pattern(i);
    assert(p.len() >= 2);
    assert(p[0] is Some);
    assert(p[1] is Some);
    if i == 7 || i == 12 {
        assert(p.len() == 12);
        assert(p[9] is Some);
    }
}

/// The table is unambiguous: no buffer matches two rows, so no row hides a
/// later one and the order of the rows does not change a result.
pub proof fn lemma_rows_disjoint(bytes: Seq<u8>, i: int, j: int)
    requires
        0 <= i < TABLE_LEN,
        0 <= j < TABLE_LEN,
        fits(bytes, table_pattern(i)),
        fits(bytes, table_pattern(j)),
    ensures
        i == j,
{
    lemma_row_leading_bytes(bytes, i);
    lemma_row_leading_bytes(bytes, j);
}

/// A buffer that matches row `i` is classified as the type of row `i`,
/// whatever follows the pattern and whatever stands at its open positions.
pub proof fn lemma_match_classifies(bytes: Seq<u8>, i: int)
    requires
        0 <= i < TABLE_LEN,
        fits(bytes, table_pattern(i)),
    ensures
        classify(bytes) == Some(table_kind(i)),
{
    lemma_first_match_from(bytes, i, 0);
}

/// Induction behind `lemma_match_classifies`: the search started at any row
/// up to `i` ends with the type of row `i`.
proof fn lemma_first_match_from(bytes: Seq<u8>, i: int, from: int)
    requires
        0 <= from <= i < TABLE_LEN,
        fits(bytes, table_pattern(i)),
    ensures
        first_match(bytes, from) == Some(table_kind(i)),
    decreases i - from,
{
    if fits(bytes, table_pattern(from)) {
        lemma_rows_disjoint(bytes, from, i);
    } else {
        lemma_first_match_from(bytes, i, from + 1);
    }
}

/// A buffer that matches no row of the table is not classified.
pub proof fn lemma_no_match_unclassified(bytes: Seq<u8>)
    requires
        forall|i: int| 0 <= i < TABLE_LEN ==> !fits(bytes, #[trigger] table_pattern(i)),
    ensures
        classify(bytes) is None,
{
    lemma_none_from(bytes, 0);
}

/// Induction behind `lemma_no_match_unclassified`.
proof fn lemma_none_from(bytes: Seq<u8>, from: int)
    requires
        0 <= from <= TABLE_LEN,
        forall|i: int| from <= i < TABLE_LEN ==> !fits(bytes, #[trigger] table_pattern(i)),
    ensures
        first_match(bytes, from) is None,
    decreases TABLE_LEN - from,
{
    if from < TABLE_LEN {
        lemma_none_from(bytes, from + 1);
    }
}

/// A classified buffer matches a row of that type, and no row before it.
pub proof fn lemma_classified_matches(bytes: Seq<u8>) -> (i: int)
    requires
        classify(bytes) is Some,
    ensures
        0 <= i < TABLE_LEN,
        fits(bytes, table_pattern(i)),
        classify(bytes) == Some(table_kind(i)),
        forall|j: int| 0 <= j < i ==> !fits(bytes, #[trigger] table_pattern(j)),
{
    lemma_found_from(bytes, 0)
}

/// Induction behind `lemma_classified_matches`.
proof fn lemma_found_from(bytes: Seq<u8>, from: int) -> (i: int)
    requires
        0 <= from <= TABLE_LEN,
        first_match(bytes, from) is Some,
    ensures
        from <= i < TABLE_LEN,
        fits(bytes, table_pattern(i)),
        first_match(bytes, from) == Some(table_kind(i)),
        forall|j: int| from <= j < i ==> !fits(bytes, #[trigger] table_pattern(j)),
    decreases TABLE_LEN - from,
{
    if fits(bytes, table_pattern(from)) {
        from
    } else {
        lemma_found_from(bytes, from + 1)
    }
}

/// A buffer shorter than the shortest signature is not classified.
pub proof fn lemma_short_buffer_unclassified(bytes: Seq<u8>)
    requires
        bytes.len() < SHORTEST_SIGNATURE,
    ensures
        classify(bytes) is None,
{
    assert forall|i: int| 0 <= i < TABLE_LEN implies !fits(
        bytes,
        #[trigger] table_pattern(i),
    ) by {
        if fits(bytes, table_pattern(i)) {
            lemma_row_leading_bytes(bytes, i);
        }
    }
    lemma_no_match_unclassified(bytes);
}

/// Classification looks at the first `PREFIX_LEN` bytes only: cutting the
/// buffer down to them does not change the result.
pub proof fn lemma_prefix_decides(bytes: Seq<u8>)
    requires
        bytes.len() >= PREFIX_LEN,
    ensures
        classify(bytes) == classify(bytes.take(PREFIX_LEN as int)),
{
    lemma_prefix_decides_from(bytes, 0);
}

/// Induction behind `lemma_prefix_decides`.
proof fn lemma_prefix_decides_from(bytes: Seq<u8>, from: int)
    requires
        bytes.len() >= PREFIX_LEN,
        0 <= from <= TABLE_LEN,
    ensures
        first_match(bytes, from) == first_match(bytes.take(PREFIX_LEN as int), from),
    decreases TABLE_LEN - from,
{
    if from < TABLE_LEN {
        let head = bytes.take(PREFIX_LEN as int);
        let p = table_pattern(from);
        assert(p.len() <= PREFIX_LEN);
        assert(fits(bytes, p) == fits(head, p)) by {
            assert forall|k: int| 0 <= k < p.len() implies head[k] == bytes[k] by {}
        }
        lemma_prefix_decides_from(bytes, from + 1);
    }
}

/// Classification is a function of the bytes alone: buffers with the same
/// contents are classified alike.
pub proof fn lemma_classify_deterministic(a: Seq<u8>, b: Seq<u8>)
    requires
        a =~= b,
    ensures
        classify(a) == classify(b),
{
}

} // verus!

//! Finding frames on disk: which directory entries are frames, how many
//! there are, and a count remembered once it has been taken.
//!
//! The count is taken once per process: frames added to or removed from the
//! directory later are not seen.

use vstd::prelude::*;
use vstd::string::*;

verus! {

/// What a directory scan reports of one entry.
#[derive(Debug, Clone)]
pub struct DirEntryInfo {
    /// Whether the entry is a regular file.
    pub is_file: bool,
    /// The file name's extension, if it has one.
    pub extension: Option<String>,
}

/// The extension that frame files carry.
pub open spec fn is_frame_extension(ext: Seq<char>) -> bool {
    ext == seq!['j', 'p', 'g']
}

pub open spec fn is_frame_entry(entry: DirEntryInfo) -> bool {
    entry.is_file && (entry.extension matches Some(ext) && is_frame_extension(ext@))
}

/// How many of the entries are frame files.
pub open spec fn frame_file_count(entries: Seq<DirEntryInfo>) -> nat
    decreases entries.len(),
{
    if entries.len() == 0 {
        0
    } else {
        frame_file_count(entries.drop_last()) + if is_frame_entry(entries.last()) {
            1nat
        } else {
            0nat
        }
    }
}

proof fn lemma_frame_file_count_bounded(entries: Seq<DirEntryInfo>)
    ensures
        frame_file_count(entries) <= entries.len(),
    decreases entries.len(),
{
    if entries.len() > 0 {
        lemma_frame_file_count_bounded(entries.drop_last());
    }
}

/// Whether a file extension is the one that frame files carry.
pub fn is_frame_extension_str(ext: &str) -> (r: bool)
    ensures
        r == is_frame_extension(ext@),
{
    let n = ext.unicode_len();
    if n != 3 {
        return false;
    }
    let r = ext.get_char(0) == 'j' && ext.get_char(1) == 'p' && ext.get_char(2) == 'g';
    proof {
        if r {
            assert(ext@ =~= seq!['j', 'p', 'g']);
        }
    }
    r
}

/// Whether a directory entry is a frame file.
pub fn is_frame_file(entry: &DirEntryInfo) -> (r: bool)
    ensures
        r == is_frame_entry(*entry),
{
    if !entry.is_file {
        return false;
    }
    match &entry.extension {
        Some(ext) => is_frame_extension_str(ext.as_str()),
        None => false,
    }
}

/// Counts the frame files among the entries of a directory.
pub fn count_frame_files(entries: &Vec<DirEntryInfo>) -> (r: u32)
    requires
        entries.len() <= u32::MAX,
    ensures
        r == frame_file_count(entries@),
{
    let mut count: u32 = 0;
    let mut i: usize = 0;
    while i < entries.len()
        invariant
            i <= entries.len() <= u32::MAX,
            count == frame_file_count(entries@.subrange(0, i as int)),
        decreases entries.len() - i,
    {
        proof {
            assert(entries@.subrange(0, i as int + 1).drop_last() =~= entries@.subrange(0, i as int));
            lemma_frame_file_count_bounded(entries@.subrange(0, i as int));
        }
        if is_frame_file(&entries[i]) {
            count = count + 1;
        }
        i = i + 1;
    }
    assert(entries@.subrange(0, entries.len() as int) =~= entries@);
    count
}


/// The character of a decimal digit.
pub open spec fn digit_char(d: nat) -> char {
    if d == 0 { '0' }
    else if d == 1 { '1' }
    else if d == 2 { '2' }
    else if d == 3 { '3' }
    else if d == 4 { '4' }
    else if d == 5 { '5' }
    else if d == 6 { '6' }
    else if d == 7 { '7' }
    else if d == 8 { '8' }
    else { '9' }
}

/// The decimal digits of `n`, most significant first, without leading zeros.
pub open spec fn decimal(n: nat) -> Seq<char>
    decreases n,
{
    if n < 10 {
        seq![digit_char(n)]
    } else {
        decimal(n / 10).push(digit_char(n % 10))
    }
}

/// Where frame `index` lies in `dir`: `<dir>/<index>.jpg`.
pub open spec fn frame_path(dir: Seq<char>, index: u32) -> Seq<char> {
    dir + seq!['/'] + decimal(index as nat) + seq!['.', 'j', 'p', 'g']
}

fn digit_str(d: u32) -> (r: &'static str)
    requires
        d < 10,
    ensures
        r@ == seq![digit_char(d as nat)],
{
    if d == 0 {
        proof { reveal_strlit("0"); }
        "0"
    } else if d == 1 {
        proof { reveal_strlit("1"); }
        "1"
    } else if d == 2 {
        proof { reveal_strlit("2"); }
        "2"
    } else if d == 3 {
        proof { reveal_strlit("3"); }
        "3"
    } else if d == 4 {
        proof { reveal_strlit("4"); }
        "4"
    } else if d == 5 {
        proof { reveal_strlit("5"); }
        "5"
    } else if d == 6 {
        proof { reveal_strlit("6"); }
        "6"
    } else if d == 7 {
        proof { reveal_strlit("7"); }
        "7"
    } else if d == 8 {
        proof { reveal_strlit("8"); }
        "8"
    } else {
        proof { reveal_strlit("9"); }
        "9"
    }
}

pub(crate) fn append_decimal(s: &mut String, n: u32)
    ensures
        final(s)@ == old(s)@ + decimal(n as nat),
    decreases n,
{
    if n >= 10 {
        append_decimal(s, n / 10);
    }
    s.append(digit_str(n % 10));
    proof {
        if n >= 10 {
            assert(decimal(n as nat) == decimal((n / 10) as nat).push(digit_char((n % 10) as nat)));
        }
    }
}

/// The path of frame `index` in directory `dir`. The index is not checked
/// against the number of frames.
pub fn frame_file_path(dir: &str, index: u32) -> (r: String)
    ensures
        r@ == frame_path(dir@, index),
{
    let mut path = String::from_str(dir);
    path.append("/");
    append_decimal(&mut path, index);
    path.append(".jpg");
    proof {
        reveal_strlit("/");
        reveal_strlit(".jpg");
    }
    path
}

/// A frame count that is set at most once and then kept: the first value
/// recorded wins and later ones are ignored.
#[derive(Debug)]
pub struct FrameCountCache {
    count: Option<u32>,
}

impl FrameCountCache {
    /// The value held, if one has been recorded.
    pub closed spec fn cached(self) -> Option<u32> {
        self.count
    }

    pub fn new() -> (r: FrameCountCache)
        ensures
            r.cached() is None,
    {
        FrameCountCache { count: None }
    }

    pub fn get(&self) -> (r: Option<u32>)
        ensures
            r == self.cached(),
    {
        self.count
    }

    /// Records `count` unless a value is already held, and returns the value
    /// held afterwards.
    pub fn record(&mut self, count: u32) -> (r: u32)
        ensures
            r == (match old(self).cached() {
                Some(c) => c,
                None => count,
            }),
            final(self).cached() == Some(r),
    {
        match self.count {
            Some(c) => c,
            None => {
                self.count = Some(count);
                count
            },
        }
    }
}

} // verus!

//! Naming uploaded audio: which content types are accepted, under which
//! file ending, and the stem of a file name that carries that ending.
use vstd::prelude::*;
use vstd::string::StrSliceExecFns;

verus! {

/// The audio formats the library stores.
#[derive(PartialEq, Eq, Structural, Clone, Copy, Debug)]
pub enum FileEnding {
    Mp3,
    Ogg,
}

/// The ending for an upload of `content_type`; other types are refused.
pub open spec fn ending_for(content_type: Seq<char>) -> Option<FileEnding> {
    if content_type == "audio/mp3"@ || content_type == "audio/mpeg"@ || content_type == "audio"@ {
        Some(FileEnding::Mp3)
    } else if content_type == "audio/ogg"@ {
        Some(FileEnding::Ogg)
    } else {
        None
    }
}

/// The ending's letters, without the dot.
pub open spec fn ending_chars(e: FileEnding) -> Seq<char> {
    match e {
        FileEnding::Mp3 => seq!['m', 'p', '3'],
        FileEnding::Ogg => seq!['o', 'g', 'g'],
    }
}

/// The suffix a file name of ending `e` carries: a dot and the ending.
pub open spec fn dotted(e: FileEnding) -> Seq<char> {
    seq!['.'] + ending_chars(e)
}

/// `name` without its suffix `.<ending>`, if it has it.
pub open spec fn stem_of(name: Seq<char>, e: FileEnding) -> Option<Seq<char>> {
    let n = name.len() as int;
    let k = dotted(e).len() as int;
    if n >= k && name.subrange(n - k, n) == dotted(e) {
        Some(name.subrange(0, n - k))
    } else {
        None
    }
}

impl FileEnding {
    pub fn as_str(&self) -> (r: &'static str)
        ensures
            r@ == ending_chars(*self),
    {
        proof {
            reveal_strlit("mp3");
            reveal_strlit("ogg");
        }
        match self {
            FileEnding::Mp3 => "mp3",
            FileEnding::Ogg => "ogg",
        }
    }

    fn dotted_chars(&self) -> (r: Vec<char>)
        ensures
            r@ == dotted(*self),
    {
        let r = match self {
            FileEnding::Mp3 => vec!['.', 'm', 'p', '3'],
            FileEnding::Ogg => vec!['.', 'o', 'g', 'g'],
        };
        assert(r@ =~= dotted(*self));
        r
    }
}

/// The ending under which an upload of `content_type` is stored.
pub fn file_ending(content_type: &str) -> (r: Option<FileEnding>)
    ensures
        r == ending_for(content_type@),
{
    let c = content_type.to_owned();
    if c == "audio/mp3".to_owned() || c == "audio/mpeg".to_owned() || c == "audio".to_owned() {
        Some(FileEnding::Mp3)
    } else if c == "audio/ogg".to_owned() {
        Some(FileEnding::Ogg)
    } else {
        None
    }
}

/// The stem of `file_name` if it ends in `.<ending>`.
pub fn strip_ending(file_name: &str, ending: FileEnding) -> (r: Option<String>)
    ensures
        r matches Some(s) ==> stem_of(file_name@, ending) == Some(s@),
        r is None ==> stem_of(file_name@, ending) is None,
{
    let suffix = ending.dotted_chars();
    let n = file_name.unicode_len();
    let k = suffix.len();
    if n < k {
        return None;
    }
    let start = n - k;
    let mut i: usize = 0;
    while i < k
        invariant
            0 <= i <= k,
            k == suffix@.len(),
            suffix@ == dotted(ending),
            n == file_name@.len(),
            start == n - k,
            forall|j: int| 0 <= j < i ==> file_name@[start + j] == suffix@[j],
        decreases k - i,
    {
        if file_name.get_char(start + i) != suffix[i] {
            assert(file_name@.subrange(start as int, n as int)[i as int] != dotted(ending)[i as int]);
            return None;
        }
        i = i + 1;
    }
    assert(file_name@.subrange(start as int, n as int) =~= dotted(ending));
    Some(file_name.substring_char(0, start).to_owned())
}

} // verus!

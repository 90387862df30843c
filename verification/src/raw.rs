use vstd::prelude::*;

verus! {

/// The extension of the file a path names, as `std::path::Path::extension`
/// gives it (the part of the file name after its last `.`, if the name has
/// one that does not start it).
pub uninterp spec fn path_extension(path: Seq<char>) -> Option<Seq<char>>;

/// Calls `std::path::Path::extension` on `path`. Claims: the result is the
/// extension as std computes it (named, not stated; std's rules for file
/// names take more than a few lines). A `&str` path is valid UTF-8, so the
/// conversion back to a string never fails.
#[verifier::external_body]
fn file_extension(path: &str) -> (r: Option<String>)
    ensures
        r matches Some(e) ==> path_extension(path@) == Some(e@),
        r is None ==> path_extension(path@) is None,
{
    std::path::Path::new(path).extension().map(|e| e.to_string_lossy().into_owned())
}

/// `c` with ASCII upper-case letters mapped to lower case.
pub open spec fn ascii_lower_char(c: char) -> char {
    if 'A' <= c <= 'Z' {
        ((c as u32) + 32) as char
    } else {
        c
    }
}

/// `s` with ASCII upper-case letters mapped to lower case.
pub open spec fn ascii_lower(s: Seq<char>) -> Seq<char> {
    s.map_values(|c: char| ascii_lower_char(c))
}

/// Whether `s`, with ASCII letters lower-cased, equals `lower`.
pub fn ascii_lower_eq(s: &str, lower: &str) -> (r: bool)
    ensures
        r == (ascii_lower(s@) == lower@),
{
    let n = s.unicode_len();
    let m = lower.unicode_len();
    if n != m {
        assert(ascii_lower(s@).len() != lower@.len());
        return false;
    }
    let mut i: usize = 0;
    while i < n
        invariant
            n == s@.len(),
            m == lower@.len(),
            n == m,
            i <= n,
            forall|j: int| 0 <= j < i ==> ascii_lower_char(s@[j]) == lower@[j],
        decreases n - i,
    {
        let c = s.get_char(i);
        let d = lower.get_char(i);
        let same = if 'A' <= c && c <= 'Z' {
            (c as u32) + 32 == (d as u32)
        } else {
            c == d
        };
        if !same {
            assert(ascii_lower(s@)[i as int] != lower@[i as int]);
            return false;
        }
        i = i + 1;
    }
    assert(ascii_lower(s@) =~= lower@);
    true
}

/// The RAW photo extensions recognized up front (lower case).
pub open spec fn raw_extensions() -> Seq<Seq<char>> {
    seq![
        "cr2"@,
        "cr3"@,
        "nef"@,
        "arw"@,
        "raf"@,
        "rw2"@,
        "orf"@,
        "dng"@,
        "pef"@,
        "srw"@,
    ]
}

/// The RAW photo extensions recognized up front (lower case).
pub fn raw_extension_list() -> (v: Vec<&'static str>)
    ensures
        v@.len() == raw_extensions().len(),
        forall|i: int| 0 <= i < v@.len() ==> (#[trigger] v@[i])@ == raw_extensions()[i],
{
    let v = vec!["cr2", "cr3", "nef", "arw", "raf", "rw2", "orf", "dng", "pef", "srw"];
    assert(v@.len() == 10);
    v
}

/// Whether the extension `ext`, case-insensitively, is one of `list`.
pub fn extension_in(ext: &str, list: &Vec<&'static str>) -> (r: bool)
    ensures
        r == exists|i: int| 0 <= i < list@.len() && ascii_lower(ext@) == (#[trigger] list@[i])@,
{
    let n = list.len();
    let mut i: usize = 0;
    while i < n
        invariant
            n == list@.len(),
            i <= n,
            forall|j: int| 0 <= j < i ==> ascii_lower(ext@) != (#[trigger] list@[j])@,
        decreases n - i,
    {
        if ascii_lower_eq(ext, list[i]) {
            return true;
        }
        i = i + 1;
    }
    false
}

/// Whether `path`'s extension names a known RAW format, case-insensitively.
pub fn is_raw_extension(path: &str) -> (r: bool)
    ensures
        r == (path_extension(path@) matches Some(e) && raw_extensions().contains(ascii_lower(e))),
        r == (path_extension(path@) matches Some(e) && {
            let l = ascii_lower(e);
            l == "cr2"@ || l == "cr3"@ || l == "nef"@ || l == "arw"@ || l == "raf"@ || l == "rw2"@
                || l == "orf"@ || l == "dng"@ || l == "pef"@ || l == "srw"@
        }),
{
    match file_extension(path) {
        None => false,
        Some(ext) => {
            let list = raw_extension_list();
            let r = extension_in(ext.as_str(), &list);
            proof {
                lemma_supported_extensions(ascii_lower(ext@));
                if r {
                    let i = choose|i: int| 0 <= i < list@.len() && ascii_lower(ext@) == (#[trigger] list@[i])@;
                    assert(raw_extensions()[i] == ascii_lower(ext@));
                } else {
                    assert forall|i: int| 0 <= i < raw_extensions().len() implies raw_extensions()[i]
                        != ascii_lower(ext@) by {
                        assert(list@[i]@ == raw_extensions()[i]);
                    }
                }
            }
            r
        },
    }
}

/// Lays a decoded RAW photo's packed RGB8 data out as RGBA8 with opaque
/// alpha: every complete three-byte group becomes one pixel; a trailing
/// partial group is dropped.
pub fn rgb8_to_rgba8(data: &Vec<u8>) -> (out: Vec<u8>)
    requires
        data@.len() / 3 * 4 <= usize::MAX,
    ensures
        out@.len() == data@.len() / 3 * 4,
        forall|k: int|
            0 <= k < out@.len() ==> #[trigger] out@[k] == if k % 4 == 3 {
                255u8
            } else {
                data@[(k / 4) * 3 + k % 4]
            },
{
    let groups = data.len() / 3;
    let mut out: Vec<u8> = Vec::new();
    let mut g: usize = 0;
    while g < groups
        invariant
            groups == data@.len() / 3,
            groups * 4 <= usize::MAX,
            g <= groups,
            out@.len() == g * 4,
            forall|k: int|
                0 <= k < out@.len() ==> #[trigger] out@[k] == if k % 4 == 3 {
                    255u8
                } else {
                    data@[(k / 4) * 3 + k % 4]
                },
        decreases groups - g,
    {
        assert(g * 3 + 2 < data@.len());
        out.push(data[g * 3]);
        out.push(data[g * 3 + 1]);
        out.push(data[g * 3 + 2]);
        out.push(255);
        g = g + 1;
    }
    out
}

/// The raster formats the batch tool decodes besides RAW (lower case).
pub open spec fn raster_extensions() -> Seq<Seq<char>> {
    seq!["png"@, "jpg"@, "jpeg"@]
}

/// The extensions the batch tool takes, spelled out: PNG and JPEG
/// (`png`, `jpg`, `jpeg`) and the RAW formats.
pub proof fn lemma_supported_extensions(e: Seq<char>)
    ensures
        raster_extensions().contains(e) <==> (e == "png"@ || e == "jpg"@ || e == "jpeg"@),
        raw_extensions().contains(e) <==> (e == "cr2"@ || e == "cr3"@ || e == "nef"@ || e
            == "arw"@ || e == "raf"@ || e == "rw2"@ || e == "orf"@ || e == "dng"@ || e == "pef"@
            || e == "srw"@),
{
    if e == "png"@ {
        assert(raster_extensions()[0] == e);
    }
    if e == "jpg"@ {
        assert(raster_extensions()[1] == e);
    }
    if e == "jpeg"@ {
        assert(raster_extensions()[2] == e);
    }
    if e == "cr2"@ {
        assert(raw_extensions()[0] == e);
    }
    if e == "cr3"@ {
        assert(raw_extensions()[1] == e);
    }
    if e == "nef"@ {
        assert(raw_extensions()[2] == e);
    }
    if e == "arw"@ {
        assert(raw_extensions()[3] == e);
    }
    if e == "raf"@ {
        assert(raw_extensions()[4] == e);
    }
    if e == "rw2"@ {
        assert(raw_extensions()[5] == e);
    }
    if e == "orf"@ {
        assert(raw_extensions()[6] == e);
    }
    if e == "dng"@ {
        assert(raw_extensions()[7] == e);
    }
    if e == "pef"@ {
        assert(raw_extensions()[8] == e);
    }
    if e == "srw"@ {
        assert(raw_extensions()[9] == e);
    }
}

/// Whether the batch tool can open `path`: a PNG/JPEG extension or a RAW
/// one, case-insensitively.
pub fn is_supported_input(path: &str) -> (r: bool)
    ensures
        r == (path_extension(path@) matches Some(e) && (raster_extensions().contains(ascii_lower(e))
            || raw_extensions().contains(ascii_lower(e)))),
        path_extension(path@) matches Some(e) && (ascii_lower(e) == "png"@ || ascii_lower(e)
            == "jpg"@ || ascii_lower(e) == "jpeg"@) ==> r,
{
    match file_extension(path) {
        None => false,
        Some(ext) => {
            let list = vec!["png", "jpg", "jpeg"];
            let raster = extension_in(ext.as_str(), &list);
            proof {
                if raster {
                    let i = choose|i: int| 0 <= i < list@.len() && ascii_lower(ext@) == (#[trigger] list@[i])@;
                    assert(raster_extensions()[i] == ascii_lower(ext@));
                } else {
                    assert forall|i: int| 0 <= i < raster_extensions().len() implies raster_extensions()[i]
                        != ascii_lower(ext@) by {
                        assert(list@[i]@ == raster_extensions()[i]);
                    }
                }
            }
            proof {
                lemma_supported_extensions(ascii_lower(ext@));
            }
            raster || is_raw_extension(path)
        },
    }
}

/// Why a RAW photo could not be decoded: the decoder's own words.
#[derive(Debug)]
pub enum RawError {
    Decode(String),
}

impl RawError {
    /// The text shown for this error.
    pub fn message(&self) -> (m: String)
        ensures
            match self {
                RawError::Decode(d) => m@ == "failed to decode RAW file: "@ + d@,
            },
    {
        match self {
            RawError::Decode(d) => {
                let mut m = String::from_str("failed to decode RAW file: ");
                m.append(d.as_str());
                m
            },
        }
    }
}

} // verus!

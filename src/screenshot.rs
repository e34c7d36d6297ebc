use vstd::prelude::*;

verus! {

/// Image format of a captured screenshot.
#[derive(Clone, Copy, Debug, PartialEq, Eq, Structural)]
pub enum ScreenshotFormat {
    Png,
    Jpeg,
}

/// The extension of a path, as `Path::extension` reads it, when it is UTF-8.
pub uninterp spec fn extension_of(path: Seq<char>) -> Option<Seq<char>>;

/// The format that a file extension selects: `jpg` and `jpeg` give JPEG,
/// anything else, or no extension at all, gives PNG.
pub open spec fn format_of_extension(ext: Option<Seq<char>>) -> ScreenshotFormat {
    match ext {
        Some(e) => if e == "jpg"@ || e == "jpeg"@ {
            ScreenshotFormat::Jpeg
        } else {
            ScreenshotFormat::Png
        },
        None => ScreenshotFormat::Png,
    }
}

/// Relies on `std::path::Path::extension` (then `OsStr::to_str`): the part of
/// the final file name after its last `.`, if any.  The result depends on the
/// path's characters alone; a path without any `.` has no extension.
#[verifier::external_body]
fn path_extension(path: &str) -> (r: Option<String>)
    ensures
        r matches Some(e) ==> extension_of(path@) == Some(e@),
        r is None ==> extension_of(path@) is None,
        (forall|i: int| 0 <= i < path@.len() ==> path@[i] != '.') ==> r is None,
{
    std::path::Path::new(path).extension().and_then(|e| e.to_str()).map(|e| e.to_string())
}

/// Chooses the format for an extension that has already been taken from a
/// file name.
pub fn extension_format(ext: Option<&str>) -> (r: ScreenshotFormat)
    ensures
        r == format_of_extension(
            match ext {
                Some(e) => Some(e@),
                None => None,
            },
        ),
{
    match ext {
        Some(e) => {
            if str_eq(e, "jpg") || str_eq(e, "jpeg") {
                ScreenshotFormat::Jpeg
            } else {
                ScreenshotFormat::Png
            }
        },
        None => ScreenshotFormat::Png,
    }
}

/// Chooses the format of the screenshot to be written to `path` from the
/// path's extension.
pub fn screenshot_format(path: &str) -> (r: ScreenshotFormat)
    ensures
        r == format_of_extension(extension_of(path@)),
{
    let ext = path_extension(path);
    match ext {
        Some(e) => extension_format(Some(e.as_str())),
        None => extension_format(None),
    }
}

/// Character-by-character equality of two strings.
fn str_eq(a: &str, b: &str) -> (r: bool)
    ensures
        r == (a@ == b@),
{
    let n = a.unicode_len();
    if n != b.unicode_len() {
        return false;
    }
    let mut i: usize = 0;
    while i < n
        invariant
            n == a@.len(),
            n == b@.len(),
            0 <= i <= n,
            forall|j: int| 0 <= j < i ==> a@[j] == b@[j],
        decreases n - i,
    {
        if a.get_char(i) != b.get_char(i) {
            return false;
        }
        i = i + 1;
    }
    proof {
        assert(a@ =~= b@);
    }
    true
}

} // verus!

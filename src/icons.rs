use vstd::prelude::*;
use crate::text::same_text;

verus! {

/// The colour of a file's icon.
#[derive(Debug, Clone, Copy, PartialEq, Eq, Structural)]
pub enum IconColor {
    Blue,
    Rgb(u8, u8, u8),
    Magenta,
    Yellow,
    Cyan,
    Red,
    White,
    Gray,
}

/// The text after the last `.` of a name, or the whole name without one.
pub open spec fn extension_of(name: Seq<char>) -> Seq<char>
    decreases name.len(),
{
    if name.len() == 0 {
        Seq::empty()
    } else if name.last() == '.' {
        Seq::empty()
    } else {
        extension_of(name.drop_last()).push(name.last())
    }
}

/// Where the text after the last `.` begins.
fn extension_start(name: &str) -> (r: usize)
    ensures
        r <= name@.len(),
        name@.subrange(r as int, name@.len() as int) == extension_of(name@),
{
    let n = name.unicode_len();
    let mut i: usize = n;
    while i > 0
        invariant
            i <= n,
            n == name@.len(),
            name@.subrange(i as int, n as int) == extension_of(name@.subrange(0, n as int)).subrange(
                extension_of(name@.subrange(0, n as int)).len() - (n - i),
                extension_of(name@.subrange(0, n as int)).len() as int,
            ),
            extension_of(name@.subrange(0, n as int)).len() >= n - i,
            extension_of(name@.subrange(0, n as int)) == extension_of(name@.subrange(0, i as int))
                + name@.subrange(i as int, n as int),
        decreases i,
    {
        let c = name.get_char(i - 1);
        let ghost pre = name@.subrange(0, i as int);
        assert(pre.drop_last() =~= name@.subrange(0, i - 1));
        if c == '.' {
            assert(extension_of(pre) == Seq::<char>::empty());
            assert(name@.subrange(0, n as int) =~= name@);
            assert(extension_of(name@) =~= name@.subrange(i as int, n as int));
            return i;
        }
        assert(name@.subrange(i - 1, n as int) =~= seq![c] + name@.subrange(i as int, n as int));
        assert(extension_of(pre) == extension_of(name@.subrange(0, i - 1)).push(c));
        i -= 1;
        assert(extension_of(name@.subrange(0, n as int)) =~= extension_of(name@.subrange(0, i as int))
            + name@.subrange(i as int, n as int));
    }
    assert(name@.subrange(0, n as int) =~= name@);
    assert(extension_of(name@.subrange(0, 0)) =~= Seq::<char>::empty());
    assert(extension_of(name@) =~= name@.subrange(0, n as int));
    0
}

/// The icon for a file whose name ends in `ext` after its last dot.
pub open spec fn icon_for_extension(ext: Seq<char>) -> Seq<char> {
    if ext == "rs"@ {
        ""@
    } else if ext == "js"@ {
        ""@
    } else if ext == "html"@ {
        ""@
    } else if ext == "css"@ {
        ""@
    } else if ext == "json"@ {
        ""@
    } else if ext == "md"@ {
        ""@
    } else if ext == "toml"@ {
        ""@
    } else if ext == "lock"@ {
        ""@
    } else if ext == "git"@ || ext == "gitignore"@ {
        ""@
    } else if ext == "mp3"@ || ext == "wav"@ || ext == "flac"@ {
        "🎵"@
    } else if ext == "mp4"@ || ext == "avi"@ || ext == "mkv"@ || ext == "mov"@ {
        "🎞"@
    } else if ext == "zip"@ || ext == "rar"@ || ext == "7z"@ || ext == "tar"@ || ext == "gz"@ {
        ""@
    } else if ext == "png"@ || ext == "jpg"@ || ext == "jpeg"@ || ext == "gif"@ || ext == "webp"@ || ext == "ico"@ {
        ""@
    } else if ext == "pdf"@ {
        ""@
    } else if ext == "txt"@ {
        ""@
    } else {
        ""@
    }
}

/// The icon colour for a file whose name ends in `ext` after its last dot.
pub open spec fn color_for_extension(ext: Seq<char>) -> IconColor {
    if ext == "rs"@ {
        IconColor::Rgb(220u8, 100u8, 80u8)
    } else if ext == "js"@ {
        IconColor::Rgb(240u8, 220u8, 130u8)
    } else if ext == "html"@ {
        IconColor::Rgb(227u8, 79u8, 38u8)
    } else if ext == "css"@ {
        IconColor::Rgb(38u8, 77u8, 228u8)
    } else if ext == "json"@ {
        IconColor::Rgb(255u8, 204u8, 0u8)
    } else if ext == "md"@ {
        IconColor::White
    } else if ext == "toml"@ {
        IconColor::Rgb(183u8, 113u8, 53u8)
    } else if ext == "lock"@ {
        IconColor::Rgb(200u8, 200u8, 200u8)
    } else if ext == "git"@ || ext == "gitignore"@ {
        IconColor::Rgb(240u8, 80u8, 50u8)
    } else if ext == "mp3"@ || ext == "wav"@ || ext == "flac"@ {
        IconColor::Magenta
    } else if ext == "mp4"@ || ext == "avi"@ || ext == "mkv"@ || ext == "mov"@ {
        IconColor::Yellow
    } else if ext == "zip"@ || ext == "rar"@ || ext == "7z"@ || ext == "tar"@ || ext == "gz"@ {
        IconColor::Rgb(172u8, 63u8, 49u8)
    } else if ext == "png"@ || ext == "jpg"@ || ext == "jpeg"@ || ext == "gif"@ || ext == "webp"@ || ext == "ico"@ {
        IconColor::Cyan
    } else if ext == "pdf"@ {
        IconColor::Red
    } else if ext == "txt"@ {
        IconColor::White
    } else {
        IconColor::Gray
    }
}

/// The icon shown beside an entry: one for directories, else chosen by the
/// text after the last dot of the name.
pub fn get_icon_for_file(name: &str, is_dir: bool) -> (r: &'static str)
    ensures
        is_dir ==> r@ == ""@,
        !is_dir ==> r@ == icon_for_extension(extension_of(name@)),
{
    if is_dir {
        return "";
    }
    let start = extension_start(name);
    let ext = name.substring_char(start, name.unicode_len());
    if same_text(ext, "rs") {
        ""
    } else if same_text(ext, "js") {
        ""
    } else if same_text(ext, "html") {
        ""
    } else if same_text(ext, "css") {
        ""
    } else if same_text(ext, "json") {
        ""
    } else if same_text(ext, "md") {
        ""
    } else if same_text(ext, "toml") {
        ""
    } else if same_text(ext, "lock") {
        ""
    } else if same_text(ext, "git") || same_text(ext, "gitignore") {
        ""
    } else if same_text(ext, "mp3") || same_text(ext, "wav") || same_text(ext, "flac") {
        "🎵"
    } else if same_text(ext, "mp4") || same_text(ext, "avi") || same_text(ext, "mkv") || same_text(ext, "mov") {
        "🎞"
    } else if same_text(ext, "zip") || same_text(ext, "rar") || same_text(ext, "7z") || same_text(ext, "tar") || same_text(ext, "gz") {
        ""
    } else if same_text(ext, "png") || same_text(ext, "jpg") || same_text(ext, "jpeg") || same_text(ext, "gif") || same_text(ext, "webp") || same_text(ext, "ico") {
        ""
    } else if same_text(ext, "pdf") {
        ""
    } else if same_text(ext, "txt") {
        ""
    } else {
        ""
    }
}

/// The colour of an entry's icon: blue for directories, else chosen by the
/// text after the last dot of the name.
pub fn get_color_for_file(name: &str, is_dir: bool) -> (r: IconColor)
    ensures
        is_dir ==> r == IconColor::Blue,
        !is_dir ==> r == color_for_extension(extension_of(name@)),
{
    if is_dir {
        return IconColor::Blue;
    }
    let start = extension_start(name);
    let ext = name.substring_char(start, name.unicode_len());
    if same_text(ext, "rs") {
        IconColor::Rgb(220, 100, 80)
    } else if same_text(ext, "js") {
        IconColor::Rgb(240, 220, 130)
    } else if same_text(ext, "html") {
        IconColor::Rgb(227, 79, 38)
    } else if same_text(ext, "css") {
        IconColor::Rgb(38, 77, 228)
    } else if same_text(ext, "json") {
        IconColor::Rgb(255, 204, 0)
    } else if same_text(ext, "md") {
        IconColor::White
    } else if same_text(ext, "toml") {
        IconColor::Rgb(183, 113, 53)
    } else if same_text(ext, "lock") {
        IconColor::Rgb(200, 200, 200)
    } else if same_text(ext, "git") || same_text(ext, "gitignore") {
        IconColor::Rgb(240, 80, 50)
    } else if same_text(ext, "mp3") || same_text(ext, "wav") || same_text(ext, "flac") {
        IconColor::Magenta
    } else if same_text(ext, "mp4") || same_text(ext, "avi") || same_text(ext, "mkv") || same_text(ext, "mov") {
        IconColor::Yellow
    } else if same_text(ext, "zip") || same_text(ext, "rar") || same_text(ext, "7z") || same_text(ext, "tar") || same_text(ext, "gz") {
        IconColor::Rgb(172, 63, 49)
    } else if same_text(ext, "png") || same_text(ext, "jpg") || same_text(ext, "jpeg") || same_text(ext, "gif") || same_text(ext, "webp") || same_text(ext, "ico") {
        IconColor::Cyan
    } else if same_text(ext, "pdf") {
        IconColor::Red
    } else if same_text(ext, "txt") {
        IconColor::White
    } else {
        IconColor::Gray
    }
}

} // verus!

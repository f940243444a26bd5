use vstd::prelude::*;

use crate::conflict::{last_index_of, lemma_last_index_in_range, lemma_last_index_of, rfind_char};
use crate::text::{chars_of, push_char, str_eq};

verus! {

broadcast use vstd::string::group_string_axioms;

/// `c` with ASCII uppercase letters made lowercase.
pub open spec fn ascii_lower(c: char) -> char {
    if 65 <= (c as u32) <= 90 {
        ((c as u32) + 32) as char
    } else {
        c
    }
}

/// `c` with an ASCII uppercase letter made lowercase.
pub fn to_ascii_lower(c: char) -> (r: char)
    ensures
        r == ascii_lower(c),
{
    if 'A' <= c && c <= 'Z' {
        ((c as u8) + 32u8) as char
    } else {
        c
    }
}

/// The extension of a file name in ASCII lowercase: what follows its last
/// `.`, empty when it has none.
pub open spec fn file_extension(name: Seq<char>) -> Seq<char> {
    match last_index_of(name, '.') {
        Some(i) => name.skip(i + 1).map_values(|c: char| ascii_lower(c)),
        None => Seq::empty(),
    }
}

/// The lowercase extension of a file name.
pub fn extension_of(name: &str) -> (e: String)
    ensures
        e@ == file_extension(name@),
{
    let v = chars_of(name);
    proof {
        lemma_last_index_in_range(v@, '.');
    }
    let mut e = String::new();
    match rfind_char(&v, '.') {
        Some(i) => {
            assert(last_index_of(v@, '.') == Some(i as int));
            assert(i < v.len());
            let mut k: usize = i + 1;
            while k < v.len()
                invariant
                    i + 1 <= k <= v@.len(),
                    e@ == v@.subrange(i + 1, k as int).map_values(|c: char| ascii_lower(c)),
                decreases v.len() - k,
            {
                push_char(&mut e, to_ascii_lower(v[k]));
                k += 1;
                assert(e@ =~= v@.subrange(i + 1, k as int).map_values(|c: char| ascii_lower(c)));
            }
            assert(v@.subrange(i + 1, v@.len() as int) =~= v@.skip(i + 1));
        },
        None => {
            assert(e@ =~= Seq::<char>::empty());
        },
    }
    e
}

/// Images: jpg, jpeg, png, gif, svg, webp, bmp, ico, tiff, tif, heic, heif, avif, raw, cr2, nef, psd, xcf.
pub open spec fn is_image_ext(e: Seq<char>) -> bool {
    e == "jpg"@
        || e == "jpeg"@
        || e == "png"@
        || e == "gif"@
        || e == "svg"@
        || e == "webp"@
        || e == "bmp"@
        || e == "ico"@
        || e == "tiff"@
        || e == "tif"@
        || e == "heic"@
        || e == "heif"@
        || e == "avif"@
        || e == "raw"@
        || e == "cr2"@
        || e == "nef"@
        || e == "psd"@
        || e == "xcf"@
}

/// Whether `e` is the extension of images.
fn image_ext(e: &str) -> (b: bool)
    ensures
        b == is_image_ext(e@),
{
    str_eq(e, "jpg")
        || str_eq(e, "jpeg")
        || str_eq(e, "png")
        || str_eq(e, "gif")
        || str_eq(e, "svg")
        || str_eq(e, "webp")
        || str_eq(e, "bmp")
        || str_eq(e, "ico")
        || str_eq(e, "tiff")
        || str_eq(e, "tif")
        || str_eq(e, "heic")
        || str_eq(e, "heif")
        || str_eq(e, "avif")
        || str_eq(e, "raw")
        || str_eq(e, "cr2")
        || str_eq(e, "nef")
        || str_eq(e, "psd")
        || str_eq(e, "xcf")
}

/// Audio: mp3, flac, ogg, oga, wav, aac, wma, m4a, opus, aiff, mid, midi, ac3.
pub open spec fn is_audio_ext(e: Seq<char>) -> bool {
    e == "mp3"@
        || e == "flac"@
        || e == "ogg"@
        || e == "oga"@
        || e == "wav"@
        || e == "aac"@
        || e == "wma"@
        || e == "m4a"@
        || e == "opus"@
        || e == "aiff"@
        || e == "mid"@
        || e == "midi"@
        || e == "ac3"@
}

/// Whether `e` is the extension of audio.
fn audio_ext(e: &str) -> (b: bool)
    ensures
        b == is_audio_ext(e@),
{
    str_eq(e, "mp3")
        || str_eq(e, "flac")
        || str_eq(e, "ogg")
        || str_eq(e, "oga")
        || str_eq(e, "wav")
        || str_eq(e, "aac")
        || str_eq(e, "wma")
        || str_eq(e, "m4a")
        || str_eq(e, "opus")
        || str_eq(e, "aiff")
        || str_eq(e, "mid")
        || str_eq(e, "midi")
        || str_eq(e, "ac3")
}

/// Video: mp4, mkv, avi, webm, mov, wmv, flv, m4v, mpg, mpeg, 3gp, ogv.
pub open spec fn is_video_ext(e: Seq<char>) -> bool {
    e == "mp4"@
        || e == "mkv"@
        || e == "avi"@
        || e == "webm"@
        || e == "mov"@
        || e == "wmv"@
        || e == "flv"@
        || e == "m4v"@
        || e == "mpg"@
        || e == "mpeg"@
        || e == "3gp"@
        || e == "ogv"@
}

/// Whether `e` is the extension of video.
fn video_ext(e: &str) -> (b: bool)
    ensures
        b == is_video_ext(e@),
{
    str_eq(e, "mp4")
        || str_eq(e, "mkv")
        || str_eq(e, "avi")
        || str_eq(e, "webm")
        || str_eq(e, "mov")
        || str_eq(e, "wmv")
        || str_eq(e, "flv")
        || str_eq(e, "m4v")
        || str_eq(e, "mpg")
        || str_eq(e, "mpeg")
        || str_eq(e, "3gp")
        || str_eq(e, "ogv")
}

/// Documents: pdf, doc, docx, odt, rtf, epub, djvu, pages, md, markdown, rst, adoc, tex, latex.
pub open spec fn is_document_ext(e: Seq<char>) -> bool {
    e == "pdf"@
        || e == "doc"@
        || e == "docx"@
        || e == "odt"@
        || e == "rtf"@
        || e == "epub"@
        || e == "djvu"@
        || e == "pages"@
        || e == "md"@
        || e == "markdown"@
        || e == "rst"@
        || e == "adoc"@
        || e == "tex"@
        || e == "latex"@
}

/// Whether `e` is the extension of documents.
fn document_ext(e: &str) -> (b: bool)
    ensures
        b == is_document_ext(e@),
{
    str_eq(e, "pdf")
        || str_eq(e, "doc")
        || str_eq(e, "docx")
        || str_eq(e, "odt")
        || str_eq(e, "rtf")
        || str_eq(e, "epub")
        || str_eq(e, "djvu")
        || str_eq(e, "pages")
        || str_eq(e, "md")
        || str_eq(e, "markdown")
        || str_eq(e, "rst")
        || str_eq(e, "adoc")
        || str_eq(e, "tex")
        || str_eq(e, "latex")
}

/// Spreadsheets: xls, xlsx, ods, csv, tsv, numbers.
pub open spec fn is_spreadsheet_ext(e: Seq<char>) -> bool {
    e == "xls"@
        || e == "xlsx"@
        || e == "ods"@
        || e == "csv"@
        || e == "tsv"@
        || e == "numbers"@
}

/// Whether `e` is the extension of spreadsheets.
fn spreadsheet_ext(e: &str) -> (b: bool)
    ensures
        b == is_spreadsheet_ext(e@),
{
    str_eq(e, "xls")
        || str_eq(e, "xlsx")
        || str_eq(e, "ods")
        || str_eq(e, "csv")
        || str_eq(e, "tsv")
        || str_eq(e, "numbers")
}

/// Presentations: ppt, pptx, odp, key.
pub open spec fn is_presentation_ext(e: Seq<char>) -> bool {
    e == "ppt"@
        || e == "pptx"@
        || e == "odp"@
        || e == "key"@
}

/// Whether `e` is the extension of presentations.
fn presentation_ext(e: &str) -> (b: bool)
    ensures
        b == is_presentation_ext(e@),
{
    str_eq(e, "ppt")
        || str_eq(e, "pptx")
        || str_eq(e, "odp")
        || str_eq(e, "key")
}

/// Drawings and vector graphics: odg, vsd, vsdx, dia.
pub open spec fn is_drawing_ext(e: Seq<char>) -> bool {
    e == "odg"@
        || e == "vsd"@
        || e == "vsdx"@
        || e == "dia"@
}

/// Whether `e` is the extension of drawings and vector graphics.
fn drawing_ext(e: &str) -> (b: bool)
    ensures
        b == is_drawing_ext(e@),
{
    str_eq(e, "odg")
        || str_eq(e, "vsd")
        || str_eq(e, "vsdx")
        || str_eq(e, "dia")
}

/// Archives and packages: zip, tar, gz, bz2, xz, zst, lz4, lzma, 7z, rar, deb, rpm, flatpak, snap, cab, cpio, ar, tgz, tbz2, txz.
pub open spec fn is_archive_ext(e: Seq<char>) -> bool {
    e == "zip"@
        || e == "tar"@
        || e == "gz"@
        || e == "bz2"@
        || e == "xz"@
        || e == "zst"@
        || e == "lz4"@
        || e == "lzma"@
        || e == "7z"@
        || e == "rar"@
        || e == "deb"@
        || e == "rpm"@
        || e == "flatpak"@
        || e == "snap"@
        || e == "cab"@
        || e == "cpio"@
        || e == "ar"@
        || e == "tgz"@
        || e == "tbz2"@
        || e == "txz"@
}

/// Whether `e` is the extension of archives and packages.
fn archive_ext(e: &str) -> (b: bool)
    ensures
        b == is_archive_ext(e@),
{
    str_eq(e, "zip")
        || str_eq(e, "tar")
        || str_eq(e, "gz")
        || str_eq(e, "bz2")
        || str_eq(e, "xz")
        || str_eq(e, "zst")
        || str_eq(e, "lz4")
        || str_eq(e, "lzma")
        || str_eq(e, "7z")
        || str_eq(e, "rar")
        || str_eq(e, "deb")
        || str_eq(e, "rpm")
        || str_eq(e, "flatpak")
        || str_eq(e, "snap")
        || str_eq(e, "cab")
        || str_eq(e, "cpio")
        || str_eq(e, "ar")
        || str_eq(e, "tgz")
        || str_eq(e, "tbz2")
        || str_eq(e, "txz")
}

/// Fonts: ttf, otf, woff, woff2, eot.
pub open spec fn is_font_ext(e: Seq<char>) -> bool {
    e == "ttf"@
        || e == "otf"@
        || e == "woff"@
        || e == "woff2"@
        || e == "eot"@
}

/// Whether `e` is the extension of fonts.
fn font_ext(e: &str) -> (b: bool)
    ensures
        b == is_font_ext(e@),
{
    str_eq(e, "ttf")
        || str_eq(e, "otf")
        || str_eq(e, "woff")
        || str_eq(e, "woff2")
        || str_eq(e, "eot")
}

/// Executables: exe, msi, bin, appimage, run, dmg, pkg.
pub open spec fn is_executable_ext(e: Seq<char>) -> bool {
    e == "exe"@
        || e == "msi"@
        || e == "bin"@
        || e == "appimage"@
        || e == "run"@
        || e == "dmg"@
        || e == "pkg"@
}

/// Whether `e` is the extension of executables.
fn executable_ext(e: &str) -> (b: bool)
    ensures
        b == is_executable_ext(e@),
{
    str_eq(e, "exe")
        || str_eq(e, "msi")
        || str_eq(e, "bin")
        || str_eq(e, "appimage")
        || str_eq(e, "run")
        || str_eq(e, "dmg")
        || str_eq(e, "pkg")
}

/// Shared libraries: so, dll, dylib.
pub open spec fn is_library_ext(e: Seq<char>) -> bool {
    e == "so"@
        || e == "dll"@
        || e == "dylib"@
}

/// Whether `e` is the extension of shared libraries.
fn library_ext(e: &str) -> (b: bool)
    ensures
        b == is_library_ext(e@),
{
    str_eq(e, "so")
        || str_eq(e, "dll")
        || str_eq(e, "dylib")
}

/// Disk images: iso, img.
pub open spec fn is_disk_image_ext(e: Seq<char>) -> bool {
    e == "iso"@
        || e == "img"@
}

/// Whether `e` is the extension of disk images.
fn disk_image_ext(e: &str) -> (b: bool)
    ensures
        b == is_disk_image_ext(e@),
{
    str_eq(e, "iso")
        || str_eq(e, "img")
}

/// Certificates and keys: pem, crt, cer, p12, pfx.
pub open spec fn is_certificate_ext(e: Seq<char>) -> bool {
    e == "pem"@
        || e == "crt"@
        || e == "cer"@
        || e == "p12"@
        || e == "pfx"@
}

/// Whether `e` is the extension of certificates and keys.
fn certificate_ext(e: &str) -> (b: bool)
    ensures
        b == is_certificate_ext(e@),
{
    str_eq(e, "pem")
        || str_eq(e, "crt")
        || str_eq(e, "cer")
        || str_eq(e, "p12")
        || str_eq(e, "pfx")
}

/// Add-ons and extensions: xpi, crx.
pub open spec fn is_addon_ext(e: Seq<char>) -> bool {
    e == "xpi"@
        || e == "crx"@
}

/// Whether `e` is the extension of add-ons and extensions.
fn addon_ext(e: &str) -> (b: bool)
    ensures
        b == is_addon_ext(e@),
{
    str_eq(e, "xpi")
        || str_eq(e, "crx")
}

/// Firmware: fw, rom, bios.
pub open spec fn is_firmware_ext(e: Seq<char>) -> bool {
    e == "fw"@
        || e == "rom"@
        || e == "bios"@
}

/// Whether `e` is the extension of firmware.
fn firmware_ext(e: &str) -> (b: bool)
    ensures
        b == is_firmware_ext(e@),
{
    str_eq(e, "fw")
        || str_eq(e, "rom")
        || str_eq(e, "bios")
}

/// RSS and Atom feeds: rss, atom.
pub open spec fn is_feed_ext(e: Seq<char>) -> bool {
    e == "rss"@
        || e == "atom"@
}

/// Whether `e` is the extension of rSS and Atom feeds.
fn feed_ext(e: &str) -> (b: bool)
    ensures
        b == is_feed_ext(e@),
{
    str_eq(e, "rss")
        || str_eq(e, "atom")
}

/// Contact cards: vcf, vcard.
pub open spec fn is_contact_ext(e: Seq<char>) -> bool {
    e == "vcf"@
        || e == "vcard"@
}

/// Whether `e` is the extension of contact cards.
fn contact_ext(e: &str) -> (b: bool)
    ensures
        b == is_contact_ext(e@),
{
    str_eq(e, "vcf")
        || str_eq(e, "vcard")
}

/// Calendars: ics, ical.
pub open spec fn is_calendar_ext(e: Seq<char>) -> bool {
    e == "ics"@
        || e == "ical"@
}

/// Whether `e` is the extension of calendars.
fn calendar_ext(e: &str) -> (b: bool)
    ensures
        b == is_calendar_ext(e@),
{
    str_eq(e, "ics")
        || str_eq(e, "ical")
}

/// The symbolic icon for a file extension. Source code, scripts, markup,
/// configuration and unknown extensions all get the generic text icon.
pub open spec fn icon_for_extension(e: Seq<char>) -> Seq<char> {
    if is_image_ext(e) {
        "image-x-generic-symbolic"@
    } else if is_audio_ext(e) {
        "audio-x-generic-symbolic"@
    } else if is_video_ext(e) {
        "video-x-generic-symbolic"@
    } else if is_document_ext(e) {
        "x-office-document-symbolic"@
    } else if is_spreadsheet_ext(e) {
        "x-office-spreadsheet-symbolic"@
    } else if is_presentation_ext(e) {
        "x-office-presentation-symbolic"@
    } else if is_drawing_ext(e) {
        "x-office-drawing-symbolic"@
    } else if is_archive_ext(e) {
        "package-x-generic-symbolic"@
    } else if is_font_ext(e) {
        "font-x-generic-symbolic"@
    } else if is_executable_ext(e) {
        "application-x-executable-symbolic"@
    } else if is_library_ext(e) {
        "application-x-sharedlib-symbolic"@
    } else if is_disk_image_ext(e) {
        "media-optical-symbolic"@
    } else if is_certificate_ext(e) {
        "application-certificate-symbolic"@
    } else if is_addon_ext(e) {
        "application-x-addon-symbolic"@
    } else if is_firmware_ext(e) {
        "application-x-firmware-symbolic"@
    } else if is_feed_ext(e) {
        "application-rss+xml-symbolic"@
    } else if is_contact_ext(e) {
        "x-office-address-book-symbolic"@
    } else if is_calendar_ext(e) {
        "x-office-calendar-symbolic"@
    } else {
        "text-x-generic-symbolic"@
    }
}

/// The last `c` of `s` is at `k` when `s[k]` is one and none follows.
proof fn lemma_last_index_at(s: Seq<char>, c: char, k: int)
    requires
        0 <= k < s.len(),
        s[k] == c,
        forall|j: int| k < j < s.len() ==> s[j] != c,
    ensures
        last_index_of(s, c) == Some(k),
    decreases s.len(),
{
    if s.last() != c {
        let t = s.drop_last();
        assert forall|j: int| k < j < t.len() implies t[j] != c by {
            assert(t[j] == s[j]);
        }
        lemma_last_index_at(t, c, k);
    }
}

/// Lowering a lowered character changes nothing.
proof fn lemma_ascii_lower_idempotent(c: char)
    ensures
        ascii_lower(ascii_lower(c)) == ascii_lower(c),
{
}

/// The extension of `stem.ext`, for an `ext` without a dot, is `ext` in
/// ASCII lowercase.
proof fn lemma_extension_after_dot(stem: Seq<char>, ext: Seq<char>)
    requires
        !ext.contains('.'),
    ensures
        file_extension(stem + seq!['.'] + ext) == ext.map_values(|c: char| ascii_lower(c)),
{
    let s = stem + seq!['.'] + ext;
    let k = stem.len() as int;
    assert(s[k] == '.');
    assert forall|j: int| k < j < s.len() implies s[j] != '.' by {
        assert(s[j] == ext[j - k - 1]);
    }
    lemma_last_index_at(s, '.', k);
    assert(s.skip(k + 1) =~= ext);
}

/// A file's icon depends only on the text after its last dot, with ASCII
/// case ignored: `stem.ext` gets the icon of `x.ext` in lowercase. A name
/// without a dot gets the generic text icon.
pub proof fn law_icon_by_lowercase_extension(stem: Seq<char>, ext: Seq<char>, n: Seq<char>)
    requires
        !ext.contains('.'),
        !n.contains('.'),
    ensures
        icon_for_extension(file_extension(stem + seq!['.'] + ext)) == icon_for_extension(
            file_extension(seq!['x', '.'] + ext.map_values(|c: char| ascii_lower(c))),
        ),
        icon_for_extension(file_extension(n)) == "text-x-generic-symbolic"@,
{
    let low = ext.map_values(|c: char| ascii_lower(c));
    lemma_extension_after_dot(stem, ext);
    assert(!low.contains('.')) by {
        if low.contains('.') {
            let j = choose|j: int| 0 <= j < low.len() && low[j] == '.';
            assert(ascii_lower(ext[j]) == '.');
            assert(ext[j] == '.');
        }
    }
    lemma_extension_after_dot(seq!['x'], low);
    assert(seq!['x'] + seq!['.'] + low =~= seq!['x', '.'] + low);
    let low2 = low.map_values(|c: char| ascii_lower(c));
    assert forall|j: int| 0 <= j < low.len() implies #[trigger] low2[j] == low[j] by {
        lemma_ascii_lower_idempotent(ext[j]);
    }
    assert(low2 =~= low);
    lemma_last_index_of(n, '.');
    if let Some(i) = last_index_of(n, '.') {
        assert(n[i] == '.');
        assert(n.contains('.'));
    }
    assert(file_extension(n) =~= Seq::<char>::empty());
    lemma_empty_extension_generic();
}

/// The empty extension gets the generic text icon: it is none of the listed
/// extensions, each of which has at least one character.
proof fn lemma_empty_extension_generic()
    ensures
        icon_for_extension(Seq::<char>::empty()) == "text-x-generic-symbolic"@,
{
    reveal_strlit("3gp");
    reveal_strlit("7z");
    reveal_strlit("aac");
    reveal_strlit("ac3");
    reveal_strlit("adoc");
    reveal_strlit("aiff");
    reveal_strlit("appimage");
    reveal_strlit("ar");
    reveal_strlit("atom");
    reveal_strlit("avi");
    reveal_strlit("avif");
    reveal_strlit("bin");
    reveal_strlit("bios");
    reveal_strlit("bmp");
    reveal_strlit("bz2");
    reveal_strlit("cab");
    reveal_strlit("cer");
    reveal_strlit("cpio");
    reveal_strlit("cr2");
    reveal_strlit("crt");
    reveal_strlit("crx");
    reveal_strlit("csv");
    reveal_strlit("deb");
    reveal_strlit("dia");
    reveal_strlit("djvu");
    reveal_strlit("dll");
    reveal_strlit("dmg");
    reveal_strlit("doc");
    reveal_strlit("docx");
    reveal_strlit("dylib");
    reveal_strlit("eot");
    reveal_strlit("epub");
    reveal_strlit("exe");
    reveal_strlit("flac");
    reveal_strlit("flatpak");
    reveal_strlit("flv");
    reveal_strlit("fw");
    reveal_strlit("gif");
    reveal_strlit("gz");
    reveal_strlit("heic");
    reveal_strlit("heif");
    reveal_strlit("ical");
    reveal_strlit("ico");
    reveal_strlit("ics");
    reveal_strlit("img");
    reveal_strlit("iso");
    reveal_strlit("jpeg");
    reveal_strlit("jpg");
    reveal_strlit("key");
    reveal_strlit("latex");
    reveal_strlit("lz4");
    reveal_strlit("lzma");
    reveal_strlit("m4a");
    reveal_strlit("m4v");
    reveal_strlit("markdown");
    reveal_strlit("md");
    reveal_strlit("mid");
    reveal_strlit("midi");
    reveal_strlit("mkv");
    reveal_strlit("mov");
    reveal_strlit("mp3");
    reveal_strlit("mp4");
    reveal_strlit("mpeg");
    reveal_strlit("mpg");
    reveal_strlit("msi");
    reveal_strlit("nef");
    reveal_strlit("numbers");
    reveal_strlit("odg");
    reveal_strlit("odp");
    reveal_strlit("ods");
    reveal_strlit("odt");
    reveal_strlit("oga");
    reveal_strlit("ogg");
    reveal_strlit("ogv");
    reveal_strlit("opus");
    reveal_strlit("otf");
    reveal_strlit("p12");
    reveal_strlit("pages");
    reveal_strlit("pdf");
    reveal_strlit("pem");
    reveal_strlit("pfx");
    reveal_strlit("pkg");
    reveal_strlit("png");
    reveal_strlit("ppt");
    reveal_strlit("pptx");
    reveal_strlit("psd");
    reveal_strlit("rar");
    reveal_strlit("raw");
    reveal_strlit("rom");
    reveal_strlit("rpm");
    reveal_strlit("rss");
    reveal_strlit("rst");
    reveal_strlit("rtf");
    reveal_strlit("run");
    reveal_strlit("snap");
    reveal_strlit("so");
    reveal_strlit("svg");
    reveal_strlit("tar");
    reveal_strlit("tbz2");
    reveal_strlit("tex");
    reveal_strlit("tgz");
    reveal_strlit("tif");
    reveal_strlit("tiff");
    reveal_strlit("tsv");
    reveal_strlit("ttf");
    reveal_strlit("txz");
    reveal_strlit("vcard");
    reveal_strlit("vcf");
    reveal_strlit("vsd");
    reveal_strlit("vsdx");
    reveal_strlit("wav");
    reveal_strlit("webm");
    reveal_strlit("webp");
    reveal_strlit("wma");
    reveal_strlit("wmv");
    reveal_strlit("woff");
    reveal_strlit("woff2");
    reveal_strlit("xcf");
    reveal_strlit("xls");
    reveal_strlit("xlsx");
    reveal_strlit("xpi");
    reveal_strlit("xz");
    reveal_strlit("zip");
    reveal_strlit("zst");
    assert(
        "3gp"@.len() > 0
            && "7z"@.len() > 0
            && "aac"@.len() > 0
            && "ac3"@.len() > 0
            && "adoc"@.len() > 0
            && "aiff"@.len() > 0
            && "appimage"@.len() > 0
            && "ar"@.len() > 0
            && "atom"@.len() > 0
            && "avi"@.len() > 0
            && "avif"@.len() > 0
            && "bin"@.len() > 0
            && "bios"@.len() > 0
            && "bmp"@.len() > 0
            && "bz2"@.len() > 0
            && "cab"@.len() > 0
            && "cer"@.len() > 0
            && "cpio"@.len() > 0
            && "cr2"@.len() > 0
            && "crt"@.len() > 0
            && "crx"@.len() > 0
            && "csv"@.len() > 0
            && "deb"@.len() > 0
            && "dia"@.len() > 0
            && "djvu"@.len() > 0
            && "dll"@.len() > 0
            && "dmg"@.len() > 0
            && "doc"@.len() > 0
            && "docx"@.len() > 0
            && "dylib"@.len() > 0
            && "eot"@.len() > 0
            && "epub"@.len() > 0
            && "exe"@.len() > 0
            && "flac"@.len() > 0
            && "flatpak"@.len() > 0
            && "flv"@.len() > 0
            && "fw"@.len() > 0
            && "gif"@.len() > 0
            && "gz"@.len() > 0
            && "heic"@.len() > 0
            && "heif"@.len() > 0
            && "ical"@.len() > 0
            && "ico"@.len() > 0
            && "ics"@.len() > 0
            && "img"@.len() > 0
            && "iso"@.len() > 0
            && "jpeg"@.len() > 0
            && "jpg"@.len() > 0
            && "key"@.len() > 0
            && "latex"@.len() > 0
            && "lz4"@.len() > 0
            && "lzma"@.len() > 0
            && "m4a"@.len() > 0
            && "m4v"@.len() > 0
            && "markdown"@.len() > 0
            && "md"@.len() > 0
            && "mid"@.len() > 0
            && "midi"@.len() > 0
            && "mkv"@.len() > 0
            && "mov"@.len() > 0
            && "mp3"@.len() > 0
            && "mp4"@.len() > 0
            && "mpeg"@.len() > 0
            && "mpg"@.len() > 0
            && "msi"@.len() > 0
            && "nef"@.len() > 0
            && "numbers"@.len() > 0
            && "odg"@.len() > 0
            && "odp"@.len() > 0
            && "ods"@.len() > 0
            && "odt"@.len() > 0
            && "oga"@.len() > 0
            && "ogg"@.len() > 0
            && "ogv"@.len() > 0
            && "opus"@.len() > 0
            && "otf"@.len() > 0
            && "p12"@.len() > 0
            && "pages"@.len() > 0
            && "pdf"@.len() > 0
            && "pem"@.len() > 0
            && "pfx"@.len() > 0
            && "pkg"@.len() > 0
            && "png"@.len() > 0
            && "ppt"@.len() > 0
            && "pptx"@.len() > 0
            && "psd"@.len() > 0
            && "rar"@.len() > 0
            && "raw"@.len() > 0
            && "rom"@.len() > 0
            && "rpm"@.len() > 0
            && "rss"@.len() > 0
            && "rst"@.len() > 0
            && "rtf"@.len() > 0
            && "run"@.len() > 0
            && "snap"@.len() > 0
            && "so"@.len() > 0
            && "svg"@.len() > 0
            && "tar"@.len() > 0
            && "tbz2"@.len() > 0
            && "tex"@.len() > 0
            && "tgz"@.len() > 0
            && "tif"@.len() > 0
            && "tiff"@.len() > 0
            && "tsv"@.len() > 0
            && "ttf"@.len() > 0
            && "txz"@.len() > 0
            && "vcard"@.len() > 0
            && "vcf"@.len() > 0
            && "vsd"@.len() > 0
            && "vsdx"@.len() > 0
            && "wav"@.len() > 0
            && "webm"@.len() > 0
            && "webp"@.len() > 0
            && "wma"@.len() > 0
            && "wmv"@.len() > 0
            && "woff"@.len() > 0
            && "woff2"@.len() > 0
            && "xcf"@.len() > 0
            && "xls"@.len() > 0
            && "xlsx"@.len() > 0
            && "xpi"@.len() > 0
            && "xz"@.len() > 0
            && "zip"@.len() > 0
            && "zst"@.len() > 0
    );
}

/// Every image extension of the table gets its icon.
proof fn lemma_icons_image()
    ensures
        icon_for_extension("jpg"@) == "image-x-generic-symbolic"@,
        icon_for_extension("jpeg"@) == "image-x-generic-symbolic"@,
        icon_for_extension("png"@) == "image-x-generic-symbolic"@,
        icon_for_extension("gif"@) == "image-x-generic-symbolic"@,
        icon_for_extension("svg"@) == "image-x-generic-symbolic"@,
        icon_for_extension("webp"@) == "image-x-generic-symbolic"@,
        icon_for_extension("bmp"@) == "image-x-generic-symbolic"@,
        icon_for_extension("ico"@) == "image-x-generic-symbolic"@,
        icon_for_extension("tiff"@) == "image-x-generic-symbolic"@,
        icon_for_extension("tif"@) == "image-x-generic-symbolic"@,
        icon_for_extension("heic"@) == "image-x-generic-symbolic"@,
        icon_for_extension("heif"@) == "image-x-generic-symbolic"@,
        icon_for_extension("avif"@) == "image-x-generic-symbolic"@,
        icon_for_extension("raw"@) == "image-x-generic-symbolic"@,
        icon_for_extension("cr2"@) == "image-x-generic-symbolic"@,
        icon_for_extension("nef"@) == "image-x-generic-symbolic"@,
        icon_for_extension("psd"@) == "image-x-generic-symbolic"@,
        icon_for_extension("xcf"@) == "image-x-generic-symbolic"@,
{
}

/// Every audio extension of the table gets its icon.
proof fn lemma_icons_audio()
    ensures
        icon_for_extension("mp3"@) == "audio-x-generic-symbolic"@,
        icon_for_extension("flac"@) == "audio-x-generic-symbolic"@,
        icon_for_extension("ogg"@) == "audio-x-generic-symbolic"@,
        icon_for_extension("oga"@) == "audio-x-generic-symbolic"@,
        icon_for_extension("wav"@) == "audio-x-generic-symbolic"@,
        icon_for_extension("aac"@) == "audio-x-generic-symbolic"@,
        icon_for_extension("wma"@) == "audio-x-generic-symbolic"@,
        icon_for_extension("m4a"@) == "audio-x-generic-symbolic"@,
        icon_for_extension("opus"@) == "audio-x-generic-symbolic"@,
        icon_for_extension("aiff"@) == "audio-x-generic-symbolic"@,
        icon_for_extension("mid"@) == "audio-x-generic-symbolic"@,
        icon_for_extension("midi"@) == "audio-x-generic-symbolic"@,
        icon_for_extension("ac3"@) == "audio-x-generic-symbolic"@,
{
    reveal_strlit("jpg");
    reveal_strlit("jpeg");
    reveal_strlit("png");
    reveal_strlit("gif");
    reveal_strlit("svg");
    reveal_strlit("webp");
    reveal_strlit("bmp");
    reveal_strlit("ico");
    reveal_strlit("tiff");
    reveal_strlit("tif");
    reveal_strlit("heic");
    reveal_strlit("heif");
    reveal_strlit("avif");
    reveal_strlit("raw");
    reveal_strlit("cr2");
    reveal_strlit("nef");
    reveal_strlit("psd");
    reveal_strlit("xcf");
    reveal_strlit("mp3");
    reveal_strlit("flac");
    reveal_strlit("ogg");
    reveal_strlit("oga");
    reveal_strlit("wav");
    reveal_strlit("aac");
    reveal_strlit("wma");
    reveal_strlit("m4a");
    reveal_strlit("opus");
    reveal_strlit("aiff");
    reveal_strlit("mid");
    reveal_strlit("midi");
    reveal_strlit("ac3");
    assert(
        "jpg"@.len() == 3 && "jpg"@[0] == 'j' && "jpg"@[1] == 'p' && "jpg"@[2] == 'g'
            && "jpeg"@.len() == 4 && "jpeg"@[0] == 'j' && "jpeg"@[1] == 'p' && "jpeg"@[2] == 'e' && "jpeg"@[3] == 'g'
            && "png"@.len() == 3 && "png"@[0] == 'p' && "png"@[1] == 'n' && "png"@[2] == 'g'
            && "gif"@.len() == 3 && "gif"@[0] == 'g' && "gif"@[1] == 'i' && "gif"@[2] == 'f'
            && "svg"@.len() == 3 && "svg"@[0] == 's' && "svg"@[1] == 'v' && "svg"@[2] == 'g'
            && "webp"@.len() == 4 && "webp"@[0] == 'w' && "webp"@[1] == 'e' && "webp"@[2] == 'b' && "webp"@[3] == 'p'
            && "bmp"@.len() == 3 && "bmp"@[0] == 'b' && "bmp"@[1] == 'm' && "bmp"@[2] == 'p'
            && "ico"@.len() == 3 && "ico"@[0] == 'i' && "ico"@[1] == 'c' && "ico"@[2] == 'o'
            && "tiff"@.len() == 4 && "tiff"@[0] == 't' && "tiff"@[1] == 'i' && "tiff"@[2] == 'f' && "tiff"@[3] == 'f'
            && "tif"@.len() == 3 && "tif"@[0] == 't' && "tif"@[1] == 'i' && "tif"@[2] == 'f'
            && "heic"@.len() == 4 && "heic"@[0] == 'h' && "heic"@[1] == 'e' && "heic"@[2] == 'i' && "heic"@[3] == 'c'
            && "heif"@.len() == 4 && "heif"@[0] == 'h' && "heif"@[1] == 'e' && "heif"@[2] == 'i' && "heif"@[3] == 'f'
            && "avif"@.len() == 4 && "avif"@[0] == 'a' && "avif"@[1] == 'v' && "avif"@[2] == 'i' && "avif"@[3] == 'f'
            && "raw"@.len() == 3 && "raw"@[0] == 'r' && "raw"@[1] == 'a' && "raw"@[2] == 'w'
            && "cr2"@.len() == 3 && "cr2"@[0] == 'c' && "cr2"@[1] == 'r' && "cr2"@[2] == '2'
            && "nef"@.len() == 3 && "nef"@[0] == 'n' && "nef"@[1] == 'e' && "nef"@[2] == 'f'
            && "psd"@.len() == 3 && "psd"@[0] == 'p' && "psd"@[1] == 's' && "psd"@[2] == 'd'
            && "xcf"@.len() == 3 && "xcf"@[0] == 'x' && "xcf"@[1] == 'c' && "xcf"@[2] == 'f'
            && "mp3"@.len() == 3 && "mp3"@[0] == 'm' && "mp3"@[1] == 'p' && "mp3"@[2] == '3'
            && "flac"@.len() == 4 && "flac"@[0] == 'f' && "flac"@[1] == 'l' && "flac"@[2] == 'a' && "flac"@[3] == 'c'
            && "ogg"@.len() == 3 && "ogg"@[0] == 'o' && "ogg"@[1] == 'g' && "ogg"@[2] == 'g'
            && "oga"@.len() == 3 && "oga"@[0] == 'o' && "oga"@[1] == 'g' && "oga"@[2] == 'a'
            && "wav"@.len() == 3 && "wav"@[0] == 'w' && "wav"@[1] == 'a' && "wav"@[2] == 'v'
            && "aac"@.len() == 3 && "aac"@[0] == 'a' && "aac"@[1] == 'a' && "aac"@[2] == 'c'
            && "wma"@.len() == 3 && "wma"@[0] == 'w' && "wma"@[1] == 'm' && "wma"@[2] == 'a'
            && "m4a"@.len() == 3 && "m4a"@[0] == 'm' && "m4a"@[1] == '4' && "m4a"@[2] == 'a'
            && "opus"@.len() == 4 && "opus"@[0] == 'o' && "opus"@[1] == 'p' && "opus"@[2] == 'u' && "opus"@[3] == 's'
            && "aiff"@.len() == 4 && "aiff"@[0] == 'a' && "aiff"@[1] == 'i' && "aiff"@[2] == 'f' && "aiff"@[3] == 'f'
            && "mid"@.len() == 3 && "mid"@[0] == 'm' && "mid"@[1] == 'i' && "mid"@[2] == 'd'
            && "midi"@.len() == 4 && "midi"@[0] == 'm' && "midi"@[1] == 'i' && "midi"@[2] == 'd' && "midi"@[3] == 'i'
            && "ac3"@.len() == 3 && "ac3"@[0] == 'a' && "ac3"@[1] == 'c' && "ac3"@[2] == '3'
    );
}

/// Every video extension of the table gets its icon.
proof fn lemma_icons_video()
    ensures
        icon_for_extension("mp4"@) == "video-x-generic-symbolic"@,
        icon_for_extension("mkv"@) == "video-x-generic-symbolic"@,
        icon_for_extension("avi"@) == "video-x-generic-symbolic"@,
        icon_for_extension("webm"@) == "video-x-generic-symbolic"@,
        icon_for_extension("mov"@) == "video-x-generic-symbolic"@,
        icon_for_extension("wmv"@) == "video-x-generic-symbolic"@,
        icon_for_extension("flv"@) == "video-x-generic-symbolic"@,
        icon_for_extension("m4v"@) == "video-x-generic-symbolic"@,
        icon_for_extension("mpg"@) == "video-x-generic-symbolic"@,
        icon_for_extension("mpeg"@) == "video-x-generic-symbolic"@,
        icon_for_extension("3gp"@) == "video-x-generic-symbolic"@,
        icon_for_extension("ogv"@) == "video-x-generic-symbolic"@,
{
    reveal_strlit("jpg");
    reveal_strlit("jpeg");
    reveal_strlit("png");
    reveal_strlit("gif");
    reveal_strlit("svg");
    reveal_strlit("webp");
    reveal_strlit("bmp");
    reveal_strlit("ico");
    reveal_strlit("tiff");
    reveal_strlit("tif");
    reveal_strlit("heic");
    reveal_strlit("heif");
    reveal_strlit("avif");
    reveal_strlit("raw");
    reveal_strlit("cr2");
    reveal_strlit("nef");
    reveal_strlit("psd");
    reveal_strlit("xcf");
    reveal_strlit("mp3");
    reveal_strlit("flac");
    reveal_strlit("ogg");
    reveal_strlit("oga");
    reveal_strlit("wav");
    reveal_strlit("aac");
    reveal_strlit("wma");
    reveal_strlit("m4a");
    reveal_strlit("opus");
    reveal_strlit("aiff");
    reveal_strlit("mid");
    reveal_strlit("midi");
    reveal_strlit("ac3");
    reveal_strlit("mp4");
    reveal_strlit("mkv");
    reveal_strlit("avi");
    reveal_strlit("webm");
    reveal_strlit("mov");
    reveal_strlit("wmv");
    reveal_strlit("flv");
    reveal_strlit("m4v");
    reveal_strlit("mpg");
    reveal_strlit("mpeg");
    reveal_strlit("3gp");
    reveal_strlit("ogv");
    assert(
        "jpg"@.len() == 3 && "jpg"@[0] == 'j' && "jpg"@[1] == 'p' && "jpg"@[2] == 'g'
            && "jpeg"@.len() == 4 && "jpeg"@[0] == 'j' && "jpeg"@[1] == 'p' && "jpeg"@[2] == 'e' && "jpeg"@[3] == 'g'
            && "png"@.len() == 3 && "png"@[0] == 'p' && "png"@[1] == 'n' && "png"@[2] == 'g'
            && "gif"@.len() == 3 && "gif"@[0] == 'g' && "gif"@[1] == 'i' && "gif"@[2] == 'f'
            && "svg"@.len() == 3 && "svg"@[0] == 's' && "svg"@[1] == 'v' && "svg"@[2] == 'g'
            && "webp"@.len() == 4 && "webp"@[0] == 'w' && "webp"@[1] == 'e' && "webp"@[2] == 'b' && "webp"@[3] == 'p'
            && "bmp"@.len() == 3 && "bmp"@[0] == 'b' && "bmp"@[1] == 'm' && "bmp"@[2] == 'p'
            && "ico"@.len() == 3 && "ico"@[0] == 'i' && "ico"@[1] == 'c' && "ico"@[2] == 'o'
            && "tiff"@.len() == 4 && "tiff"@[0] == 't' && "tiff"@[1] == 'i' && "tiff"@[2] == 'f' && "tiff"@[3] == 'f'
            && "tif"@.len() == 3 && "tif"@[0] == 't' && "tif"@[1] == 'i' && "tif"@[2] == 'f'
            && "heic"@.len() == 4 && "heic"@[0] == 'h' && "heic"@[1] == 'e' && "heic"@[2] == 'i' && "heic"@[3] == 'c'
            && "heif"@.len() == 4 && "heif"@[0] == 'h' && "heif"@[1] == 'e' && "heif"@[2] == 'i' && "heif"@[3] == 'f'
            && "avif"@.len() == 4 && "avif"@[0] == 'a' && "avif"@[1] == 'v' && "avif"@[2] == 'i' && "avif"@[3] == 'f'
            && "raw"@.len() == 3 && "raw"@[0] == 'r' && "raw"@[1] == 'a' && "raw"@[2] == 'w'
            && "cr2"@.len() == 3 && "cr2"@[0] == 'c' && "cr2"@[1] == 'r' && "cr2"@[2] == '2'
            && "nef"@.len() == 3 && "nef"@[0] == 'n' && "nef"@[1] == 'e' && "nef"@[2] == 'f'
            && "psd"@.len() == 3 && "psd"@[0] == 'p' && "psd"@[1] == 's' && "psd"@[2] == 'd'
            && "xcf"@.len() == 3 && "xcf"@[0] == 'x' && "xcf"@[1] == 'c' && "xcf"@[2] == 'f'
            && "mp3"@.len() == 3 && "mp3"@[0] == 'm' && "mp3"@[1] == 'p' && "mp3"@[2] == '3'
            && "flac"@.len() == 4 && "flac"@[0] == 'f' && "flac"@[1] == 'l' && "flac"@[2] == 'a' && "flac"@[3] == 'c'
            && "ogg"@.len() == 3 && "ogg"@[0] == 'o' && "ogg"@[1] == 'g' && "ogg"@[2] == 'g'
            && "oga"@.len() == 3 && "oga"@[0] == 'o' && "oga"@[1] == 'g' && "oga"@[2] == 'a'
            && "wav"@.len() == 3 && "wav"@[0] == 'w' && "wav"@[1] == 'a' && "wav"@[2] == 'v'
            && "aac"@.len() == 3 && "aac"@[0] == 'a' && "aac"@[1] == 'a' && "aac"@[2] == 'c'
            && "wma"@.len() == 3 && "wma"@[0] == 'w' && "wma"@[1] == 'm' && "wma"@[2] == 'a'
            && "m4a"@.len() == 3 && "m4a"@[0] == 'm' && "m4a"@[1] == '4' && "m4a"@[2] == 'a'
            && "opus"@.len() == 4 && "opus"@[0] == 'o' && "opus"@[1] == 'p' && "opus"@[2] == 'u' && "opus"@[3] == 's'
            && "aiff"@.len() == 4 && "aiff"@[0] == 'a' && "aiff"@[1] == 'i' && "aiff"@[2] == 'f' && "aiff"@[3] == 'f'
            && "mid"@.len() == 3 && "mid"@[0] == 'm' && "mid"@[1] == 'i' && "mid"@[2] == 'd'
            && "midi"@.len() == 4 && "midi"@[0] == 'm' && "midi"@[1] == 'i' && "midi"@[2] == 'd' && "midi"@[3] == 'i'
            && "ac3"@.len() == 3 && "ac3"@[0] == 'a' && "ac3"@[1] == 'c' && "ac3"@[2] == '3'
            && "mp4"@.len() == 3 && "mp4"@[0] == 'm' && "mp4"@[1] == 'p' && "mp4"@[2] == '4'
            && "mkv"@.len() == 3 && "mkv"@[0] == 'm' && "mkv"@[1] == 'k' && "mkv"@[2] == 'v'
            && "avi"@.len() == 3 && "avi"@[0] == 'a' && "avi"@[1] == 'v' && "avi"@[2] == 'i'
            && "webm"@.len() == 4 && "webm"@[0] == 'w' && "webm"@[1] == 'e' && "webm"@[2] == 'b' && "webm"@[3] == 'm'
            && "mov"@.len() == 3 && "mov"@[0] == 'm' && "mov"@[1] == 'o' && "mov"@[2] == 'v'
            && "wmv"@.len() == 3 && "wmv"@[0] == 'w' && "wmv"@[1] == 'm' && "wmv"@[2] == 'v'
            && "flv"@.len() == 3 && "flv"@[0] == 'f' && "flv"@[1] == 'l' && "flv"@[2] == 'v'
            && "m4v"@.len() == 3 && "m4v"@[0] == 'm' && "m4v"@[1] == '4' && "m4v"@[2] == 'v'
            && "mpg"@.len() == 3 && "mpg"@[0] == 'm' && "mpg"@[1] == 'p' && "mpg"@[2] == 'g'
            && "mpeg"@.len() == 4 && "mpeg"@[0] == 'm' && "mpeg"@[1] == 'p' && "mpeg"@[2] == 'e' && "mpeg"@[3] == 'g'
            && "3gp"@.len() == 3 && "3gp"@[0] == '3' && "3gp"@[1] == 'g' && "3gp"@[2] == 'p'
            && "ogv"@.len() == 3 && "ogv"@[0] == 'o' && "ogv"@[1] == 'g' && "ogv"@[2] == 'v'
    );
}

/// Every document extension of the table gets its icon.
proof fn lemma_icons_document()
    ensures
        icon_for_extension("pdf"@) == "x-office-document-symbolic"@,
        icon_for_extension("doc"@) == "x-office-document-symbolic"@,
        icon_for_extension("docx"@) == "x-office-document-symbolic"@,
        icon_for_extension("odt"@) == "x-office-document-symbolic"@,
        icon_for_extension("rtf"@) == "x-office-document-symbolic"@,
        icon_for_extension("epub"@) == "x-office-document-symbolic"@,
        icon_for_extension("djvu"@) == "x-office-document-symbolic"@,
        icon_for_extension("pages"@) == "x-office-document-symbolic"@,
        icon_for_extension("md"@) == "x-office-document-symbolic"@,
        icon_for_extension("markdown"@) == "x-office-document-symbolic"@,
        icon_for_extension("rst"@) == "x-office-document-symbolic"@,
        icon_for_extension("adoc"@) == "x-office-document-symbolic"@,
        icon_for_extension("tex"@) == "x-office-document-symbolic"@,
        icon_for_extension("latex"@) == "x-office-document-symbolic"@,
{
    reveal_strlit("jpg");
    reveal_strlit("jpeg");
    reveal_strlit("png");
    reveal_strlit("gif");
    reveal_strlit("svg");
    reveal_strlit("webp");
    reveal_strlit("bmp");
    reveal_strlit("ico");
    reveal_strlit("tiff");
    reveal_strlit("tif");
    reveal_strlit("heic");
    reveal_strlit("heif");
    reveal_strlit("avif");
    reveal_strlit("raw");
    reveal_strlit("cr2");
    reveal_strlit("nef");
    reveal_strlit("psd");
    reveal_strlit("xcf");
    reveal_strlit("mp3");
    reveal_strlit("flac");
    reveal_strlit("ogg");
    reveal_strlit("oga");
    reveal_strlit("wav");
    reveal_strlit("aac");
    reveal_strlit("wma");
    reveal_strlit("m4a");
    reveal_strlit("opus");
    reveal_strlit("aiff");
    reveal_strlit("mid");
    reveal_strlit("midi");
    reveal_strlit("ac3");
    reveal_strlit("mp4");
    reveal_strlit("mkv");
    reveal_strlit("avi");
    reveal_strlit("webm");
    reveal_strlit("mov");
    reveal_strlit("wmv");
    reveal_strlit("flv");
    reveal_strlit("m4v");
    reveal_strlit("mpg");
    reveal_strlit("mpeg");
    reveal_strlit("3gp");
    reveal_strlit("ogv");
    reveal_strlit("pdf");
    reveal_strlit("doc");
    reveal_strlit("docx");
    reveal_strlit("odt");
    reveal_strlit("rtf");
    reveal_strlit("epub");
    reveal_strlit("djvu");
    reveal_strlit("pages");
    reveal_strlit("md");
    reveal_strlit("markdown");
    reveal_strlit("rst");
    reveal_strlit("adoc");
    reveal_strlit("tex");
    reveal_strlit("latex");
    assert(
        "jpg"@.len() == 3 && "jpg"@[0] == 'j' && "jpg"@[1] == 'p' && "jpg"@[2] == 'g'
            && "jpeg"@.len() == 4 && "jpeg"@[0] == 'j' && "jpeg"@[1] == 'p' && "jpeg"@[2] == 'e' && "jpeg"@[3] == 'g'
            && "png"@.len() == 3 && "png"@[0] == 'p' && "png"@[1] == 'n' && "png"@[2] == 'g'
            && "gif"@.len() == 3 && "gif"@[0] == 'g' && "gif"@[1] == 'i' && "gif"@[2] == 'f'
            && "svg"@.len() == 3 && "svg"@[0] == 's' && "svg"@[1] == 'v' && "svg"@[2] == 'g'
            && "webp"@.len() == 4 && "webp"@[0] == 'w' && "webp"@[1] == 'e' && "webp"@[2] == 'b' && "webp"@[3] == 'p'
            && "bmp"@.len() == 3 && "bmp"@[0] == 'b' && "bmp"@[1] == 'm' && "bmp"@[2] == 'p'
            && "ico"@.len() == 3 && "ico"@[0] == 'i' && "ico"@[1] == 'c' && "ico"@[2] == 'o'
            && "tiff"@.len() == 4 && "tiff"@[0] == 't' && "tiff"@[1] == 'i' && "tiff"@[2] == 'f' && "tiff"@[3] == 'f'
            && "tif"@.len() == 3 && "tif"@[0] == 't' && "tif"@[1] == 'i' && "tif"@[2] == 'f'
            && "heic"@.len() == 4 && "heic"@[0] == 'h' && "heic"@[1] == 'e' && "heic"@[2] == 'i' && "heic"@[3] == 'c'
            && "heif"@.len() == 4 && "heif"@[0] == 'h' && "heif"@[1] == 'e' && "heif"@[2] == 'i' && "heif"@[3] == 'f'
            && "avif"@.len() == 4 && "avif"@[0] == 'a' && "avif"@[1] == 'v' && "avif"@[2] == 'i' && "avif"@[3] == 'f'
            && "raw"@.len() == 3 && "raw"@[0] == 'r' && "raw"@[1] == 'a' && "raw"@[2] == 'w'
            && "cr2"@.len() == 3 && "cr2"@[0] == 'c' && "cr2"@[1] == 'r' && "cr2"@[2] == '2'
            && "nef"@.len() == 3 && "nef"@[0] == 'n' && "nef"@[1] == 'e' && "nef"@[2] == 'f'
            && "psd"@.len() == 3 && "psd"@[0] == 'p' && "psd"@[1] == 's' && "psd"@[2] == 'd'
            && "xcf"@.len() == 3 && "xcf"@[0] == 'x' && "xcf"@[1] == 'c' && "xcf"@[2] == 'f'
            && "mp3"@.len() == 3 && "mp3"@[0] == 'm' && "mp3"@[1] == 'p' && "mp3"@[2] == '3'
            && "flac"@.len() == 4 && "flac"@[0] == 'f' && "flac"@[1] == 'l' && "flac"@[2] == 'a' && "flac"@[3] == 'c'
            && "ogg"@.len() == 3 && "ogg"@[0] == 'o' && "ogg"@[1] == 'g' && "ogg"@[2] == 'g'
            && "oga"@.len() == 3 && "oga"@[0] == 'o' && "oga"@[1] == 'g' && "oga"@[2] == 'a'
            && "wav"@.len() == 3 && "wav"@[0] == 'w' && "wav"@[1] == 'a' && "wav"@[2] == 'v'
            && "aac"@.len() == 3 && "aac"@[0] == 'a' && "aac"@[1] == 'a' && "aac"@[2] == 'c'
            && "wma"@.len() == 3 && "wma"@[0] == 'w' && "wma"@[1] == 'm' && "wma"@[2] == 'a'
            && "m4a"@.len() == 3 && "m4a"@[0] == 'm' && "m4a"@[1] == '4' && "m4a"@[2] == 'a'
            && "opus"@.len() == 4 && "opus"@[0] == 'o' && "opus"@[1] == 'p' && "opus"@[2] == 'u' && "opus"@[3] == 's'
            && "aiff"@.len() == 4 && "aiff"@[0] == 'a' && "aiff"@[1] == 'i' && "aiff"@[2] == 'f' && "aiff"@[3] == 'f'
            && "mid"@.len() == 3 && "mid"@[0] == 'm' && "mid"@[1] == 'i' && "mid"@[2] == 'd'
            && "midi"@.len() == 4 && "midi"@[0] == 'm' && "midi"@[1] == 'i' && "midi"@[2] == 'd' && "midi"@[3] == 'i'
            && "ac3"@.len() == 3 && "ac3"@[0] == 'a' && "ac3"@[1] == 'c' && "ac3"@[2] == '3'
            && "mp4"@.len() == 3 && "mp4"@[0] == 'm' && "mp4"@[1] == 'p' && "mp4"@[2] == '4'
            && "mkv"@.len() == 3 && "mkv"@[0] == 'm' && "mkv"@[1] == 'k' && "mkv"@[2] == 'v'
            && "avi"@.len() == 3 && "avi"@[0] == 'a' && "avi"@[1] == 'v' && "avi"@[2] == 'i'
            && "webm"@.len() == 4 && "webm"@[0] == 'w' && "webm"@[1] == 'e' && "webm"@[2] == 'b' && "webm"@[3] == 'm'
            && "mov"@.len() == 3 && "mov"@[0] == 'm' && "mov"@[1] == 'o' && "mov"@[2] == 'v'
            && "wmv"@.len() == 3 && "wmv"@[0] == 'w' && "wmv"@[1] == 'm' && "wmv"@[2] == 'v'
            && "flv"@.len() == 3 && "flv"@[0] == 'f' && "flv"@[1] == 'l' && "flv"@[2] == 'v'
            && "m4v"@.len() == 3 && "m4v"@[0] == 'm' && "m4v"@[1] == '4' && "m4v"@[2] == 'v'
            && "mpg"@.len() == 3 && "mpg"@[0] == 'm' && "mpg"@[1] == 'p' && "mpg"@[2] == 'g'
            && "mpeg"@.len() == 4 && "mpeg"@[0] == 'm' && "mpeg"@[1] == 'p' && "mpeg"@[2] == 'e' && "mpeg"@[3] == 'g'
            && "3gp"@.len() == 3 && "3gp"@[0] == '3' && "3gp"@[1] == 'g' && "3gp"@[2] == 'p'
            && "ogv"@.len() == 3 && "ogv"@[0] == 'o' && "ogv"@[1] == 'g' && "ogv"@[2] == 'v'
            && "pdf"@.len() == 3 && "pdf"@[0] == 'p' && "pdf"@[1] == 'd' && "pdf"@[2] == 'f'
            && "doc"@.len() == 3 && "doc"@[0] == 'd' && "doc"@[1] == 'o' && "doc"@[2] == 'c'
            && "docx"@.len() == 4 && "docx"@[0] == 'd' && "docx"@[1] == 'o' && "docx"@[2] == 'c' && "docx"@[3] == 'x'
            && "odt"@.len() == 3 && "odt"@[0] == 'o' && "odt"@[1] == 'd' && "odt"@[2] == 't'
            && "rtf"@.len() == 3 && "rtf"@[0] == 'r' && "rtf"@[1] == 't' && "rtf"@[2] == 'f'
            && "epub"@.len() == 4 && "epub"@[0] == 'e' && "epub"@[1] == 'p' && "epub"@[2] == 'u' && "epub"@[3] == 'b'
            && "djvu"@.len() == 4 && "djvu"@[0] == 'd' && "djvu"@[1] == 'j' && "djvu"@[2] == 'v' && "djvu"@[3] == 'u'
            && "pages"@.len() == 5 && "pages"@[0] == 'p' && "pages"@[1] == 'a' && "pages"@[2] == 'g' && "pages"@[3] == 'e' && "pages"@[4] == 's'
            && "md"@.len() == 2 && "md"@[0] == 'm' && "md"@[1] == 'd'
            && "markdown"@.len() == 8 && "markdown"@[0] == 'm' && "markdown"@[1] == 'a' && "markdown"@[2] == 'r' && "markdown"@[3] == 'k' && "markdown"@[4] == 'd' && "markdown"@[5] == 'o' && "markdown"@[6] == 'w' && "markdown"@[7] == 'n'
            && "rst"@.len() == 3 && "rst"@[0] == 'r' && "rst"@[1] == 's' && "rst"@[2] == 't'
            && "adoc"@.len() == 4 && "adoc"@[0] == 'a' && "adoc"@[1] == 'd' && "adoc"@[2] == 'o' && "adoc"@[3] == 'c'
            && "tex"@.len() == 3 && "tex"@[0] == 't' && "tex"@[1] == 'e' && "tex"@[2] == 'x'
            && "latex"@.len() == 5 && "latex"@[0] == 'l' && "latex"@[1] == 'a' && "latex"@[2] == 't' && "latex"@[3] == 'e' && "latex"@[4] == 'x'
    );
}

/// Every spreadsheet extension of the table gets its icon.
proof fn lemma_icons_spreadsheet()
    ensures
        icon_for_extension("xls"@) == "x-office-spreadsheet-symbolic"@,
        icon_for_extension("xlsx"@) == "x-office-spreadsheet-symbolic"@,
        icon_for_extension("ods"@) == "x-office-spreadsheet-symbolic"@,
        icon_for_extension("csv"@) == "x-office-spreadsheet-symbolic"@,
        icon_for_extension("tsv"@) == "x-office-spreadsheet-symbolic"@,
        icon_for_extension("numbers"@) == "x-office-spreadsheet-symbolic"@,
{
    reveal_strlit("jpg");
    reveal_strlit("jpeg");
    reveal_strlit("png");
    reveal_strlit("gif");
    reveal_strlit("svg");
    reveal_strlit("webp");
    reveal_strlit("bmp");
    reveal_strlit("ico");
    reveal_strlit("tiff");
    reveal_strlit("tif");
    reveal_strlit("heic");
    reveal_strlit("heif");
    reveal_strlit("avif");
    reveal_strlit("raw");
    reveal_strlit("cr2");
    reveal_strlit("nef");
    reveal_strlit("psd");
    reveal_strlit("xcf");
    reveal_strlit("mp3");
    reveal_strlit("flac");
    reveal_strlit("ogg");
    reveal_strlit("oga");
    reveal_strlit("wav");
    reveal_strlit("aac");
    reveal_strlit("wma");
    reveal_strlit("m4a");
    reveal_strlit("opus");
    reveal_strlit("aiff");
    reveal_strlit("mid");
    reveal_strlit("midi");
    reveal_strlit("ac3");
    reveal_strlit("mp4");
    reveal_strlit("mkv");
    reveal_strlit("avi");
    reveal_strlit("webm");
    reveal_strlit("mov");
    reveal_strlit("wmv");
    reveal_strlit("flv");
    reveal_strlit("m4v");
    reveal_strlit("mpg");
    reveal_strlit("mpeg");
    reveal_strlit("3gp");
    reveal_strlit("ogv");
    reveal_strlit("pdf");
    reveal_strlit("doc");
    reveal_strlit("docx");
    reveal_strlit("odt");
    reveal_strlit("rtf");
    reveal_strlit("epub");
    reveal_strlit("djvu");
    reveal_strlit("pages");
    reveal_strlit("md");
    reveal_strlit("markdown");
    reveal_strlit("rst");
    reveal_strlit("adoc");
    reveal_strlit("tex");
    reveal_strlit("latex");
    reveal_strlit("xls");
    reveal_strlit("xlsx");
    reveal_strlit("ods");
    reveal_strlit("csv");
    reveal_strlit("tsv");
    reveal_strlit("numbers");
    assert(
        "jpg"@.len() == 3 && "jpg"@[0] == 'j' && "jpg"@[1] == 'p' && "jpg"@[2] == 'g'
            && "jpeg"@.len() == 4 && "jpeg"@[0] == 'j' && "jpeg"@[1] == 'p' && "jpeg"@[2] == 'e' && "jpeg"@[3] == 'g'
            && "png"@.len() == 3 && "png"@[0] == 'p' && "png"@[1] == 'n' && "png"@[2] == 'g'
            && "gif"@.len() == 3 && "gif"@[0] == 'g' && "gif"@[1] == 'i' && "gif"@[2] == 'f'
            && "svg"@.len() == 3 && "svg"@[0] == 's' && "svg"@[1] == 'v' && "svg"@[2] == 'g'
            && "webp"@.len() == 4 && "webp"@[0] == 'w' && "webp"@[1] == 'e' && "webp"@[2] == 'b' && "webp"@[3] == 'p'
            && "bmp"@.len() == 3 && "bmp"@[0] == 'b' && "bmp"@[1] == 'm' && "bmp"@[2] == 'p'
            && "ico"@.len() == 3 && "ico"@[0] == 'i' && "ico"@[1] == 'c' && "ico"@[2] == 'o'
            && "tiff"@.len() == 4 && "tiff"@[0] == 't' && "tiff"@[1] == 'i' && "tiff"@[2] == 'f' && "tiff"@[3] == 'f'
            && "tif"@.len() == 3 && "tif"@[0] == 't' && "tif"@[1] == 'i' && "tif"@[2] == 'f'
            && "heic"@.len() == 4 && "heic"@[0] == 'h' && "heic"@[1] == 'e' && "heic"@[2] == 'i' && "heic"@[3] == 'c'
            && "heif"@.len() == 4 && "heif"@[0] == 'h' && "heif"@[1] == 'e' && "heif"@[2] == 'i' && "heif"@[3] == 'f'
            && "avif"@.len() == 4 && "avif"@[0] == 'a' && "avif"@[1] == 'v' && "avif"@[2] == 'i' && "avif"@[3] == 'f'
            && "raw"@.len() == 3 && "raw"@[0] == 'r' && "raw"@[1] == 'a' && "raw"@[2] == 'w'
            && "cr2"@.len() == 3 && "cr2"@[0] == 'c' && "cr2"@[1] == 'r' && "cr2"@[2] == '2'
            && "nef"@.len() == 3 && "nef"@[0] == 'n' && "nef"@[1] == 'e' && "nef"@[2] == 'f'
            && "psd"@.len() == 3 && "psd"@[0] == 'p' && "psd"@[1] == 's' && "psd"@[2] == 'd'
            && "xcf"@.len() == 3 && "xcf"@[0] == 'x' && "xcf"@[1] == 'c' && "xcf"@[2] == 'f'
            && "mp3"@.len() == 3 && "mp3"@[0] == 'm' && "mp3"@[1] == 'p' && "mp3"@[2] == '3'
            && "flac"@.len() == 4 && "flac"@[0] == 'f' && "flac"@[1] == 'l' && "flac"@[2] == 'a' && "flac"@[3] == 'c'
            && "ogg"@.len() == 3 && "ogg"@[0] == 'o' && "ogg"@[1] == 'g' && "ogg"@[2] == 'g'
            && "oga"@.len() == 3 && "oga"@[0] == 'o' && "oga"@[1] == 'g' && "oga"@[2] == 'a'
            && "wav"@.len() == 3 && "wav"@[0] == 'w' && "wav"@[1] == 'a' && "wav"@[2] == 'v'
            && "aac"@.len() == 3 && "aac"@[0] == 'a' && "aac"@[1] == 'a' && "aac"@[2] == 'c'
            && "wma"@.len() == 3 && "wma"@[0] == 'w' && "wma"@[1] == 'm' && "wma"@[2] == 'a'
            && "m4a"@.len() == 3 && "m4a"@[0] == 'm' && "m4a"@[1] == '4' && "m4a"@[2] == 'a'
            && "opus"@.len() == 4 && "opus"@[0] == 'o' && "opus"@[1] == 'p' && "opus"@[2] == 'u' && "opus"@[3] == 's'
            && "aiff"@.len() == 4 && "aiff"@[0] == 'a' && "aiff"@[1] == 'i' && "aiff"@[2] == 'f' && "aiff"@[3] == 'f'
            && "mid"@.len() == 3 && "mid"@[0] == 'm' && "mid"@[1] == 'i' && "mid"@[2] == 'd'
            && "midi"@.len() == 4 && "midi"@[0] == 'm' && "midi"@[1] == 'i' && "midi"@[2] == 'd' && "midi"@[3] == 'i'
            && "ac3"@.len() == 3 && "ac3"@[0] == 'a' && "ac3"@[1] == 'c' && "ac3"@[2] == '3'
            && "mp4"@.len() == 3 && "mp4"@[0] == 'm' && "mp4"@[1] == 'p' && "mp4"@[2] == '4'
            && "mkv"@.len() == 3 && "mkv"@[0] == 'm' && "mkv"@[1] == 'k' && "mkv"@[2] == 'v'
            && "avi"@.len() == 3 && "avi"@[0] == 'a' && "avi"@[1] == 'v' && "avi"@[2] == 'i'
            && "webm"@.len() == 4 && "webm"@[0] == 'w' && "webm"@[1] == 'e' && "webm"@[2] == 'b' && "webm"@[3] == 'm'
            && "mov"@.len() == 3 && "mov"@[0] == 'm' && "mov"@[1] == 'o' && "mov"@[2] == 'v'
            && "wmv"@.len() == 3 && "wmv"@[0] == 'w' && "wmv"@[1] == 'm' && "wmv"@[2] == 'v'
            && "flv"@.len() == 3 && "flv"@[0] == 'f' && "flv"@[1] == 'l' && "flv"@[2] == 'v'
            && "m4v"@.len() == 3 && "m4v"@[0] == 'm' && "m4v"@[1] == '4' && "m4v"@[2] == 'v'
            && "mpg"@.len() == 3 && "mpg"@[0] == 'm' && "mpg"@[1] == 'p' && "mpg"@[2] == 'g'
            && "mpeg"@.len() == 4 && "mpeg"@[0] == 'm' && "mpeg"@[1] == 'p' && "mpeg"@[2] == 'e' && "mpeg"@[3] == 'g'
            && "3gp"@.len() == 3 && "3gp"@[0] == '3' && "3gp"@[1] == 'g' && "3gp"@[2] == 'p'
            && "ogv"@.len() == 3 && "ogv"@[0] == 'o' && "ogv"@[1] == 'g' && "ogv"@[2] == 'v'
            && "pdf"@.len() == 3 && "pdf"@[0] == 'p' && "pdf"@[1] == 'd' && "pdf"@[2] == 'f'
            && "doc"@.len() == 3 && "doc"@[0] == 'd' && "doc"@[1] == 'o' && "doc"@[2] == 'c'
            && "docx"@.len() == 4 && "docx"@[0] == 'd' && "docx"@[1] == 'o' && "docx"@[2] == 'c' && "docx"@[3] == 'x'
            && "odt"@.len() == 3 && "odt"@[0] == 'o' && "odt"@[1] == 'd' && "odt"@[2] == 't'
            && "rtf"@.len() == 3 && "rtf"@[0] == 'r' && "rtf"@[1] == 't' && "rtf"@[2] == 'f'
            && "epub"@.len() == 4 && "epub"@[0] == 'e' && "epub"@[1] == 'p' && "epub"@[2] == 'u' && "epub"@[3] == 'b'
            && "djvu"@.len() == 4 && "djvu"@[0] == 'd' && "djvu"@[1] == 'j' && "djvu"@[2] == 'v' && "djvu"@[3] == 'u'
            && "pages"@.len() == 5 && "pages"@[0] == 'p' && "pages"@[1] == 'a' && "pages"@[2] == 'g' && "pages"@[3] == 'e' && "pages"@[4] == 's'
            && "md"@.len() == 2 && "md"@[0] == 'm' && "md"@[1] == 'd'
            && "markdown"@.len() == 8 && "markdown"@[0] == 'm' && "markdown"@[1] == 'a' && "markdown"@[2] == 'r' && "markdown"@[3] == 'k' && "markdown"@[4] == 'd' && "markdown"@[5] == 'o' && "markdown"@[6] == 'w' && "markdown"@[7] == 'n'
            && "rst"@.len() == 3 && "rst"@[0] == 'r' && "rst"@[1] == 's' && "rst"@[2] == 't'
            && "adoc"@.len() == 4 && "adoc"@[0] == 'a' && "adoc"@[1] == 'd' && "adoc"@[2] == 'o' && "adoc"@[3] == 'c'
            && "tex"@.len() == 3 && "tex"@[0] == 't' && "tex"@[1] == 'e' && "tex"@[2] == 'x'
            && "latex"@.len() == 5 && "latex"@[0] == 'l' && "latex"@[1] == 'a' && "latex"@[2] == 't' && "latex"@[3] == 'e' && "latex"@[4] == 'x'
            && "xls"@.len() == 3 && "xls"@[0] == 'x' && "xls"@[1] == 'l' && "xls"@[2] == 's'
            && "xlsx"@.len() == 4 && "xlsx"@[0] == 'x' && "xlsx"@[1] == 'l' && "xlsx"@[2] == 's' && "xlsx"@[3] == 'x'
            && "ods"@.len() == 3 && "ods"@[0] == 'o' && "ods"@[1] == 'd' && "ods"@[2] == 's'
            && "csv"@.len() == 3 && "csv"@[0] == 'c' && "csv"@[1] == 's' && "csv"@[2] == 'v'
            && "tsv"@.len() == 3 && "tsv"@[0] == 't' && "tsv"@[1] == 's' && "tsv"@[2] == 'v'
            && "numbers"@.len() == 7 && "numbers"@[0] == 'n' && "numbers"@[1] == 'u' && "numbers"@[2] == 'm' && "numbers"@[3] == 'b' && "numbers"@[4] == 'e' && "numbers"@[5] == 'r' && "numbers"@[6] == 's'
    );
}

/// Every presentation extension of the table gets its icon.
proof fn lemma_icons_presentation()
    ensures
        icon_for_extension("ppt"@) == "x-office-presentation-symbolic"@,
        icon_for_extension("pptx"@) == "x-office-presentation-symbolic"@,
        icon_for_extension("odp"@) == "x-office-presentation-symbolic"@,
        icon_for_extension("key"@) == "x-office-presentation-symbolic"@,
{
    reveal_strlit("jpg");
    reveal_strlit("jpeg");
    reveal_strlit("png");
    reveal_strlit("gif");
    reveal_strlit("svg");
    reveal_strlit("webp");
    reveal_strlit("bmp");
    reveal_strlit("ico");
    reveal_strlit("tiff");
    reveal_strlit("tif");
    reveal_strlit("heic");
    reveal_strlit("heif");
    reveal_strlit("avif");
    reveal_strlit("raw");
    reveal_strlit("cr2");
    reveal_strlit("nef");
    reveal_strlit("psd");
    reveal_strlit("xcf");
    reveal_strlit("mp3");
    reveal_strlit("flac");
    reveal_strlit("ogg");
    reveal_strlit("oga");
    reveal_strlit("wav");
    reveal_strlit("aac");
    reveal_strlit("wma");
    reveal_strlit("m4a");
    reveal_strlit("opus");
    reveal_strlit("aiff");
    reveal_strlit("mid");
    reveal_strlit("midi");
    reveal_strlit("ac3");
    reveal_strlit("mp4");
    reveal_strlit("mkv");
    reveal_strlit("avi");
    reveal_strlit("webm");
    reveal_strlit("mov");
    reveal_strlit("wmv");
    reveal_strlit("flv");
    reveal_strlit("m4v");
    reveal_strlit("mpg");
    reveal_strlit("mpeg");
    reveal_strlit("3gp");
    reveal_strlit("ogv");
    reveal_strlit("pdf");
    reveal_strlit("doc");
    reveal_strlit("docx");
    reveal_strlit("odt");
    reveal_strlit("rtf");
    reveal_strlit("epub");
    reveal_strlit("djvu");
    reveal_strlit("pages");
    reveal_strlit("md");
    reveal_strlit("markdown");
    reveal_strlit("rst");
    reveal_strlit("adoc");
    reveal_strlit("tex");
    reveal_strlit("latex");
    reveal_strlit("xls");
    reveal_strlit("xlsx");
    reveal_strlit("ods");
    reveal_strlit("csv");
    reveal_strlit("tsv");
    reveal_strlit("numbers");
    reveal_strlit("ppt");
    reveal_strlit("pptx");
    reveal_strlit("odp");
    reveal_strlit("key");
    assert(
        "jpg"@.len() == 3 && "jpg"@[0] == 'j' && "jpg"@[1] == 'p' && "jpg"@[2] == 'g'
            && "jpeg"@.len() == 4 && "jpeg"@[0] == 'j' && "jpeg"@[1] == 'p' && "jpeg"@[2] == 'e' && "jpeg"@[3] == 'g'
            && "png"@.len() == 3 && "png"@[0] == 'p' && "png"@[1] == 'n' && "png"@[2] == 'g'
            && "gif"@.len() == 3 && "gif"@[0] == 'g' && "gif"@[1] == 'i' && "gif"@[2] == 'f'
            && "svg"@.len() == 3 && "svg"@[0] == 's' && "svg"@[1] == 'v' && "svg"@[2] == 'g'
            && "webp"@.len() == 4 && "webp"@[0] == 'w' && "webp"@[1] == 'e' && "webp"@[2] == 'b' && "webp"@[3] == 'p'
            && "bmp"@.len() == 3 && "bmp"@[0] == 'b' && "bmp"@[1] == 'm' && "bmp"@[2] == 'p'
            && "ico"@.len() == 3 && "ico"@[0] == 'i' && "ico"@[1] == 'c' && "ico"@[2] == 'o'
            && "tiff"@.len() == 4 && "tiff"@[0] == 't' && "tiff"@[1] == 'i' && "tiff"@[2] == 'f' && "tiff"@[3] == 'f'
            && "tif"@.len() == 3 && "tif"@[0] == 't' && "tif"@[1] == 'i' && "tif"@[2] == 'f'
            && "heic"@.len() == 4 && "heic"@[0] == 'h' && "heic"@[1] == 'e' && "heic"@[2] == 'i' && "heic"@[3] == 'c'
            && "heif"@.len() == 4 && "heif"@[0] == 'h' && "heif"@[1] == 'e' && "heif"@[2] == 'i' && "heif"@[3] == 'f'
            && "avif"@.len() == 4 && "avif"@[0] == 'a' && "avif"@[1] == 'v' && "avif"@[2] == 'i' && "avif"@[3] == 'f'
            && "raw"@.len() == 3 && "raw"@[0] == 'r' && "raw"@[1] == 'a' && "raw"@[2] == 'w'
            && "cr2"@.len() == 3 && "cr2"@[0] == 'c' && "cr2"@[1] == 'r' && "cr2"@[2] == '2'
            && "nef"@.len() == 3 && "nef"@[0] == 'n' && "nef"@[1] == 'e' && "nef"@[2] == 'f'
            && "psd"@.len() == 3 && "psd"@[0] == 'p' && "psd"@[1] == 's' && "psd"@[2] == 'd'
            && "xcf"@.len() == 3 && "xcf"@[0] == 'x' && "xcf"@[1] == 'c' && "xcf"@[2] == 'f'
            && "mp3"@.len() == 3 && "mp3"@[0] == 'm' && "mp3"@[1] == 'p' && "mp3"@[2] == '3'
            && "flac"@.len() == 4 && "flac"@[0] == 'f' && "flac"@[1] == 'l' && "flac"@[2] == 'a' && "flac"@[3] == 'c'
            && "ogg"@.len() == 3 && "ogg"@[0] == 'o' && "ogg"@[1] == 'g' && "ogg"@[2] == 'g'
            && "oga"@.len() == 3 && "oga"@[0] == 'o' && "oga"@[1] == 'g' && "oga"@[2] == 'a'
            && "wav"@.len() == 3 && "wav"@[0] == 'w' && "wav"@[1] == 'a' && "wav"@[2] == 'v'
            && "aac"@.len() == 3 && "aac"@[0] == 'a' && "aac"@[1] == 'a' && "aac"@[2] == 'c'
            && "wma"@.len() == 3 && "wma"@[0] == 'w' && "wma"@[1] == 'm' && "wma"@[2] == 'a'
            && "m4a"@.len() == 3 && "m4a"@[0] == 'm' && "m4a"@[1] == '4' && "m4a"@[2] == 'a'
            && "opus"@.len() == 4 && "opus"@[0] == 'o' && "opus"@[1] == 'p' && "opus"@[2] == 'u' && "opus"@[3] == 's'
            && "aiff"@.len() == 4 && "aiff"@[0] == 'a' && "aiff"@[1] == 'i' && "aiff"@[2] == 'f' && "aiff"@[3] == 'f'
            && "mid"@.len() == 3 && "mid"@[0] == 'm' && "mid"@[1] == 'i' && "mid"@[2] == 'd'
            && "midi"@.len() == 4 && "midi"@[0] == 'm' && "midi"@[1] == 'i' && "midi"@[2] == 'd' && "midi"@[3] == 'i'
            && "ac3"@.len() == 3 && "ac3"@[0] == 'a' && "ac3"@[1] == 'c' && "ac3"@[2] == '3'
            && "mp4"@.len() == 3 && "mp4"@[0] == 'm' && "mp4"@[1] == 'p' && "mp4"@[2] == '4'
            && "mkv"@.len() == 3 && "mkv"@[0] == 'm' && "mkv"@[1] == 'k' && "mkv"@[2] == 'v'
            && "avi"@.len() == 3 && "avi"@[0] == 'a' && "avi"@[1] == 'v' && "avi"@[2] == 'i'
            && "webm"@.len() == 4 && "webm"@[0] == 'w' && "webm"@[1] == 'e' && "webm"@[2] == 'b' && "webm"@[3] == 'm'
            && "mov"@.len() == 3 && "mov"@[0] == 'm' && "mov"@[1] == 'o' && "mov"@[2] == 'v'
            && "wmv"@.len() == 3 && "wmv"@[0] == 'w' && "wmv"@[1] == 'm' && "wmv"@[2] == 'v'
            && "flv"@.len() == 3 && "flv"@[0] == 'f' && "flv"@[1] == 'l' && "flv"@[2] == 'v'
            && "m4v"@.len() == 3 && "m4v"@[0] == 'm' && "m4v"@[1] == '4' && "m4v"@[2] == 'v'
            && "mpg"@.len() == 3 && "mpg"@[0] == 'm' && "mpg"@[1] == 'p' && "mpg"@[2] == 'g'
            && "mpeg"@.len() == 4 && "mpeg"@[0] == 'm' && "mpeg"@[1] == 'p' && "mpeg"@[2] == 'e' && "mpeg"@[3] == 'g'
            && "3gp"@.len() == 3 && "3gp"@[0] == '3' && "3gp"@[1] == 'g' && "3gp"@[2] == 'p'
            && "ogv"@.len() == 3 && "ogv"@[0] == 'o' && "ogv"@[1] == 'g' && "ogv"@[2] == 'v'
            && "pdf"@.len() == 3 && "pdf"@[0] == 'p' && "pdf"@[1] == 'd' && "pdf"@[2] == 'f'
            && "doc"@.len() == 3 && "doc"@[0] == 'd' && "doc"@[1] == 'o' && "doc"@[2] == 'c'
            && "docx"@.len() == 4 && "docx"@[0] == 'd' && "docx"@[1] == 'o' && "docx"@[2] == 'c' && "docx"@[3] == 'x'
            && "odt"@.len() == 3 && "odt"@[0] == 'o' && "odt"@[1] == 'd' && "odt"@[2] == 't'
            && "rtf"@.len() == 3 && "rtf"@[0] == 'r' && "rtf"@[1] == 't' && "rtf"@[2] == 'f'
            && "epub"@.len() == 4 && "epub"@[0] == 'e' && "epub"@[1] == 'p' && "epub"@[2] == 'u' && "epub"@[3] == 'b'
            && "djvu"@.len() == 4 && "djvu"@[0] == 'd' && "djvu"@[1] == 'j' && "djvu"@[2] == 'v' && "djvu"@[3] == 'u'
            && "pages"@.len() == 5 && "pages"@[0] == 'p' && "pages"@[1] == 'a' && "pages"@[2] == 'g' && "pages"@[3] == 'e' && "pages"@[4] == 's'
            && "md"@.len() == 2 && "md"@[0] == 'm' && "md"@[1] == 'd'
            && "markdown"@.len() == 8 && "markdown"@[0] == 'm' && "markdown"@[1] == 'a' && "markdown"@[2] == 'r' && "markdown"@[3] == 'k' && "markdown"@[4] == 'd' && "markdown"@[5] == 'o' && "markdown"@[6] == 'w' && "markdown"@[7] == 'n'
            && "rst"@.len() == 3 && "rst"@[0] == 'r' && "rst"@[1] == 's' && "rst"@[2] == 't'
            && "adoc"@.len() == 4 && "adoc"@[0] == 'a' && "adoc"@[1] == 'd' && "adoc"@[2] == 'o' && "adoc"@[3] == 'c'
            && "tex"@.len() == 3 && "tex"@[0] == 't' && "tex"@[1] == 'e' && "tex"@[2] == 'x'
            && "latex"@.len() == 5 && "latex"@[0] == 'l' && "latex"@[1] == 'a' && "latex"@[2] == 't' && "latex"@[3] == 'e' && "latex"@[4] == 'x'
            && "xls"@.len() == 3 && "xls"@[0] == 'x' && "xls"@[1] == 'l' && "xls"@[2] == 's'
            && "xlsx"@.len() == 4 && "xlsx"@[0] == 'x' && "xlsx"@[1] == 'l' && "xlsx"@[2] == 's' && "xlsx"@[3] == 'x'
            && "ods"@.len() == 3 && "ods"@[0] == 'o' && "ods"@[1] == 'd' && "ods"@[2] == 's'
            && "csv"@.len() == 3 && "csv"@[0] == 'c' && "csv"@[1] == 's' && "csv"@[2] == 'v'
            && "tsv"@.len() == 3 && "tsv"@[0] == 't' && "tsv"@[1] == 's' && "tsv"@[2] == 'v'
            && "numbers"@.len() == 7 && "numbers"@[0] == 'n' && "numbers"@[1] == 'u' && "numbers"@[2] == 'm' && "numbers"@[3] == 'b' && "numbers"@[4] == 'e' && "numbers"@[5] == 'r' && "numbers"@[6] == 's'
            && "ppt"@.len() == 3 && "ppt"@[0] == 'p' && "ppt"@[1] == 'p' && "ppt"@[2] == 't'
            && "pptx"@.len() == 4 && "pptx"@[0] == 'p' && "pptx"@[1] == 'p' && "pptx"@[2] == 't' && "pptx"@[3] == 'x'
            && "odp"@.len() == 3 && "odp"@[0] == 'o' && "odp"@[1] == 'd' && "odp"@[2] == 'p'
            && "key"@.len() == 3 && "key"@[0] == 'k' && "key"@[1] == 'e' && "key"@[2] == 'y'
    );
}

/// Every drawing extension of the table gets its icon.
proof fn lemma_icons_drawing()
    ensures
        icon_for_extension("odg"@) == "x-office-drawing-symbolic"@,
        icon_for_extension("vsd"@) == "x-office-drawing-symbolic"@,
        icon_for_extension("vsdx"@) == "x-office-drawing-symbolic"@,
        icon_for_extension("dia"@) == "x-office-drawing-symbolic"@,
{
    reveal_strlit("jpg");
    reveal_strlit("jpeg");
    reveal_strlit("png");
    reveal_strlit("gif");
    reveal_strlit("svg");
    reveal_strlit("webp");
    reveal_strlit("bmp");
    reveal_strlit("ico");
    reveal_strlit("tiff");
    reveal_strlit("tif");
    reveal_strlit("heic");
    reveal_strlit("heif");
    reveal_strlit("avif");
    reveal_strlit("raw");
    reveal_strlit("cr2");
    reveal_strlit("nef");
    reveal_strlit("psd");
    reveal_strlit("xcf");
    reveal_strlit("mp3");
    reveal_strlit("flac");
    reveal_strlit("ogg");
    reveal_strlit("oga");
    reveal_strlit("wav");
    reveal_strlit("aac");
    reveal_strlit("wma");
    reveal_strlit("m4a");
    reveal_strlit("opus");
    reveal_strlit("aiff");
    reveal_strlit("mid");
    reveal_strlit("midi");
    reveal_strlit("ac3");
    reveal_strlit("mp4");
    reveal_strlit("mkv");
    reveal_strlit("avi");
    reveal_strlit("webm");
    reveal_strlit("mov");
    reveal_strlit("wmv");
    reveal_strlit("flv");
    reveal_strlit("m4v");
    reveal_strlit("mpg");
    reveal_strlit("mpeg");
    reveal_strlit("3gp");
    reveal_strlit("ogv");
    reveal_strlit("pdf");
    reveal_strlit("doc");
    reveal_strlit("docx");
    reveal_strlit("odt");
    reveal_strlit("rtf");
    reveal_strlit("epub");
    reveal_strlit("djvu");
    reveal_strlit("pages");
    reveal_strlit("md");
    reveal_strlit("markdown");
    reveal_strlit("rst");
    reveal_strlit("adoc");
    reveal_strlit("tex");
    reveal_strlit("latex");
    reveal_strlit("xls");
    reveal_strlit("xlsx");
    reveal_strlit("ods");
    reveal_strlit("csv");
    reveal_strlit("tsv");
    reveal_strlit("numbers");
    reveal_strlit("ppt");
    reveal_strlit("pptx");
    reveal_strlit("odp");
    reveal_strlit("key");
    reveal_strlit("odg");
    reveal_strlit("vsd");
    reveal_strlit("vsdx");
    reveal_strlit("dia");
    assert(
        "jpg"@.len() == 3 && "jpg"@[0] == 'j' && "jpg"@[1] == 'p' && "jpg"@[2] == 'g'
            && "jpeg"@.len() == 4 && "jpeg"@[0] == 'j' && "jpeg"@[1] == 'p' && "jpeg"@[2] == 'e' && "jpeg"@[3] == 'g'
            && "png"@.len() == 3 && "png"@[0] == 'p' && "png"@[1] == 'n' && "png"@[2] == 'g'
            && "gif"@.len() == 3 && "gif"@[0] == 'g' && "gif"@[1] == 'i' && "gif"@[2] == 'f'
            && "svg"@.len() == 3 && "svg"@[0] == 's' && "svg"@[1] == 'v' && "svg"@[2] == 'g'
            && "webp"@.len() == 4 && "webp"@[0] == 'w' && "webp"@[1] == 'e' && "webp"@[2] == 'b' && "webp"@[3] == 'p'
            && "bmp"@.len() == 3 && "bmp"@[0] == 'b' && "bmp"@[1] == 'm' && "bmp"@[2] == 'p'
            && "ico"@.len() == 3 && "ico"@[0] == 'i' && "ico"@[1] == 'c' && "ico"@[2] == 'o'
            && "tiff"@.len() == 4 && "tiff"@[0] == 't' && "tiff"@[1] == 'i' && "tiff"@[2] == 'f' && "tiff"@[3] == 'f'
            && "tif"@.len() == 3 && "tif"@[0] == 't' && "tif"@[1] == 'i' && "tif"@[2] == 'f'
            && "heic"@.len() == 4 && "heic"@[0] == 'h' && "heic"@[1] == 'e' && "heic"@[2] == 'i' && "heic"@[3] == 'c'
            && "heif"@.len() == 4 && "heif"@[0] == 'h' && "heif"@[1] == 'e' && "heif"@[2] == 'i' && "heif"@[3] == 'f'
            && "avif"@.len() == 4 && "avif"@[0] == 'a' && "avif"@[1] == 'v' && "avif"@[2] == 'i' && "avif"@[3] == 'f'
            && "raw"@.len() == 3 && "raw"@[0] == 'r' && "raw"@[1] == 'a' && "raw"@[2] == 'w'
            && "cr2"@.len() == 3 && "cr2"@[0] == 'c' && "cr2"@[1] == 'r' && "cr2"@[2] == '2'
            && "nef"@.len() == 3 && "nef"@[0] == 'n' && "nef"@[1] == 'e' && "nef"@[2] == 'f'
            && "psd"@.len() == 3 && "psd"@[0] == 'p' && "psd"@[1] == 's' && "psd"@[2] == 'd'
            && "xcf"@.len() == 3 && "xcf"@[0] == 'x' && "xcf"@[1] == 'c' && "xcf"@[2] == 'f'
            && "mp3"@.len() == 3 && "mp3"@[0] == 'm' && "mp3"@[1] == 'p' && "mp3"@[2] == '3'
            && "flac"@.len() == 4 && "flac"@[0] == 'f' && "flac"@[1] == 'l' && "flac"@[2] == 'a' && "flac"@[3] == 'c'
            && "ogg"@.len() == 3 && "ogg"@[0] == 'o' && "ogg"@[1] == 'g' && "ogg"@[2] == 'g'
            && "oga"@.len() == 3 && "oga"@[0] == 'o' && "oga"@[1] == 'g' && "oga"@[2] == 'a'
            && "wav"@.len() == 3 && "wav"@[0] == 'w' && "wav"@[1] == 'a' && "wav"@[2] == 'v'
            && "aac"@.len() == 3 && "aac"@[0] == 'a' && "aac"@[1] == 'a' && "aac"@[2] == 'c'
            && "wma"@.len() == 3 && "wma"@[0] == 'w' && "wma"@[1] == 'm' && "wma"@[2] == 'a'
            && "m4a"@.len() == 3 && "m4a"@[0] == 'm' && "m4a"@[1] == '4' && "m4a"@[2] == 'a'
            && "opus"@.len() == 4 && "opus"@[0] == 'o' && "opus"@[1] == 'p' && "opus"@[2] == 'u' && "opus"@[3] == 's'
            && "aiff"@.len() == 4 && "aiff"@[0] == 'a' && "aiff"@[1] == 'i' && "aiff"@[2] == 'f' && "aiff"@[3] == 'f'
            && "mid"@.len() == 3 && "mid"@[0] == 'm' && "mid"@[1] == 'i' && "mid"@[2] == 'd'
            && "midi"@.len() == 4 && "midi"@[0] == 'm' && "midi"@[1] == 'i' && "midi"@[2] == 'd' && "midi"@[3] == 'i'
            && "ac3"@.len() == 3 && "ac3"@[0] == 'a' && "ac3"@[1] == 'c' && "ac3"@[2] == '3'
            && "mp4"@.len() == 3 && "mp4"@[0] == 'm' && "mp4"@[1] == 'p' && "mp4"@[2] == '4'
            && "mkv"@.len() == 3 && "mkv"@[0] == 'm' && "mkv"@[1] == 'k' && "mkv"@[2] == 'v'
            && "avi"@.len() == 3 && "avi"@[0] == 'a' && "avi"@[1] == 'v' && "avi"@[2] == 'i'
            && "webm"@.len() == 4 && "webm"@[0] == 'w' && "webm"@[1] == 'e' && "webm"@[2] == 'b' && "webm"@[3] == 'm'
            && "mov"@.len() == 3 && "mov"@[0] == 'm' && "mov"@[1] == 'o' && "mov"@[2] == 'v'
            && "wmv"@.len() == 3 && "wmv"@[0] == 'w' && "wmv"@[1] == 'm' && "wmv"@[2] == 'v'
            && "flv"@.len() == 3 && "flv"@[0] == 'f' && "flv"@[1] == 'l' && "flv"@[2] == 'v'
            && "m4v"@.len() == 3 && "m4v"@[0] == 'm' && "m4v"@[1] == '4' && "m4v"@[2] == 'v'
            && "mpg"@.len() == 3 && "mpg"@[0] == 'm' && "mpg"@[1] == 'p' && "mpg"@[2] == 'g'
            && "mpeg"@.len() == 4 && "mpeg"@[0] == 'm' && "mpeg"@[1] == 'p' && "mpeg"@[2] == 'e' && "mpeg"@[3] == 'g'
            && "3gp"@.len() == 3 && "3gp"@[0] == '3' && "3gp"@[1] == 'g' && "3gp"@[2] == 'p'
            && "ogv"@.len() == 3 && "ogv"@[0] == 'o' && "ogv"@[1] == 'g' && "ogv"@[2] == 'v'
            && "pdf"@.len() == 3 && "pdf"@[0] == 'p' && "pdf"@[1] == 'd' && "pdf"@[2] == 'f'
            && "doc"@.len() == 3 && "doc"@[0] == 'd' && "doc"@[1] == 'o' && "doc"@[2] == 'c'
            && "docx"@.len() == 4 && "docx"@[0] == 'd' && "docx"@[1] == 'o' && "docx"@[2] == 'c' && "docx"@[3] == 'x'
            && "odt"@.len() == 3 && "odt"@[0] == 'o' && "odt"@[1] == 'd' && "odt"@[2] == 't'
            && "rtf"@.len() == 3 && "rtf"@[0] == 'r' && "rtf"@[1] == 't' && "rtf"@[2] == 'f'
            && "epub"@.len() == 4 && "epub"@[0] == 'e' && "epub"@[1] == 'p' && "epub"@[2] == 'u' && "epub"@[3] == 'b'
            && "djvu"@.len() == 4 && "djvu"@[0] == 'd' && "djvu"@[1] == 'j' && "djvu"@[2] == 'v' && "djvu"@[3] == 'u'
            && "pages"@.len() == 5 && "pages"@[0] == 'p' && "pages"@[1] == 'a' && "pages"@[2] == 'g' && "pages"@[3] == 'e' && "pages"@[4] == 's'
            && "md"@.len() == 2 && "md"@[0] == 'm' && "md"@[1] == 'd'
            && "markdown"@.len() == 8 && "markdown"@[0] == 'm' && "markdown"@[1] == 'a' && "markdown"@[2] == 'r' && "markdown"@[3] == 'k' && "markdown"@[4] == 'd' && "markdown"@[5] == 'o' && "markdown"@[6] == 'w' && "markdown"@[7] == 'n'
            && "rst"@.len() == 3 && "rst"@[0] == 'r' && "rst"@[1] == 's' && "rst"@[2] == 't'
            && "adoc"@.len() == 4 && "adoc"@[0] == 'a' && "adoc"@[1] == 'd' && "adoc"@[2] == 'o' && "adoc"@[3] == 'c'
            && "tex"@.len() == 3 && "tex"@[0] == 't' && "tex"@[1] == 'e' && "tex"@[2] == 'x'
            && "latex"@.len() == 5 && "latex"@[0] == 'l' && "latex"@[1] == 'a' && "latex"@[2] == 't' && "latex"@[3] == 'e' && "latex"@[4] == 'x'
            && "xls"@.len() == 3 && "xls"@[0] == 'x' && "xls"@[1] == 'l' && "xls"@[2] == 's'
            && "xlsx"@.len() == 4 && "xlsx"@[0] == 'x' && "xlsx"@[1] == 'l' && "xlsx"@[2] == 's' && "xlsx"@[3] == 'x'
            && "ods"@.len() == 3 && "ods"@[0] == 'o' && "ods"@[1] == 'd' && "ods"@[2] == 's'
            && "csv"@.len() == 3 && "csv"@[0] == 'c' && "csv"@[1] == 's' && "csv"@[2] == 'v'
            && "tsv"@.len() == 3 && "tsv"@[0] == 't' && "tsv"@[1] == 's' && "tsv"@[2] == 'v'
            && "numbers"@.len() == 7 && "numbers"@[0] == 'n' && "numbers"@[1] == 'u' && "numbers"@[2] == 'm' && "numbers"@[3] == 'b' && "numbers"@[4] == 'e' && "numbers"@[5] == 'r' && "numbers"@[6] == 's'
            && "ppt"@.len() == 3 && "ppt"@[0] == 'p' && "ppt"@[1] == 'p' && "ppt"@[2] == 't'
            && "pptx"@.len() == 4 && "pptx"@[0] == 'p' && "pptx"@[1] == 'p' && "pptx"@[2] == 't' && "pptx"@[3] == 'x'
            && "odp"@.len() == 3 && "odp"@[0] == 'o' && "odp"@[1] == 'd' && "odp"@[2] == 'p'
            && "key"@.len() == 3 && "key"@[0] == 'k' && "key"@[1] == 'e' && "key"@[2] == 'y'
            && "odg"@.len() == 3 && "odg"@[0] == 'o' && "odg"@[1] == 'd' && "odg"@[2] == 'g'
            && "vsd"@.len() == 3 && "vsd"@[0] == 'v' && "vsd"@[1] == 's' && "vsd"@[2] == 'd'
            && "vsdx"@.len() == 4 && "vsdx"@[0] == 'v' && "vsdx"@[1] == 's' && "vsdx"@[2] == 'd' && "vsdx"@[3] == 'x'
            && "dia"@.len() == 3 && "dia"@[0] == 'd' && "dia"@[1] == 'i' && "dia"@[2] == 'a'
    );
}

/// Every archive extension of the table gets its icon.
proof fn lemma_icons_archive()
    ensures
        icon_for_extension("zip"@) == "package-x-generic-symbolic"@,
        icon_for_extension("tar"@) == "package-x-generic-symbolic"@,
        icon_for_extension("gz"@) == "package-x-generic-symbolic"@,
        icon_for_extension("bz2"@) == "package-x-generic-symbolic"@,
        icon_for_extension("xz"@) == "package-x-generic-symbolic"@,
        icon_for_extension("zst"@) == "package-x-generic-symbolic"@,
        icon_for_extension("lz4"@) == "package-x-generic-symbolic"@,
        icon_for_extension("lzma"@) == "package-x-generic-symbolic"@,
        icon_for_extension("7z"@) == "package-x-generic-symbolic"@,
        icon_for_extension("rar"@) == "package-x-generic-symbolic"@,
        icon_for_extension("deb"@) == "package-x-generic-symbolic"@,
        icon_for_extension("rpm"@) == "package-x-generic-symbolic"@,
        icon_for_extension("flatpak"@) == "package-x-generic-symbolic"@,
        icon_for_extension("snap"@) == "package-x-generic-symbolic"@,
        icon_for_extension("cab"@) == "package-x-generic-symbolic"@,
        icon_for_extension("cpio"@) == "package-x-generic-symbolic"@,
        icon_for_extension("ar"@) == "package-x-generic-symbolic"@,
        icon_for_extension("tgz"@) == "package-x-generic-symbolic"@,
        icon_for_extension("tbz2"@) == "package-x-generic-symbolic"@,
        icon_for_extension("txz"@) == "package-x-generic-symbolic"@,
{
    reveal_strlit("jpg");
    reveal_strlit("jpeg");
    reveal_strlit("png");
    reveal_strlit("gif");
    reveal_strlit("svg");
    reveal_strlit("webp");
    reveal_strlit("bmp");
    reveal_strlit("ico");
    reveal_strlit("tiff");
    reveal_strlit("tif");
    reveal_strlit("heic");
    reveal_strlit("heif");
    reveal_strlit("avif");
    reveal_strlit("raw");
    reveal_strlit("cr2");
    reveal_strlit("nef");
    reveal_strlit("psd");
    reveal_strlit("xcf");
    reveal_strlit("mp3");
    reveal_strlit("flac");
    reveal_strlit("ogg");
    reveal_strlit("oga");
    reveal_strlit("wav");
    reveal_strlit("aac");
    reveal_strlit("wma");
    reveal_strlit("m4a");
    reveal_strlit("opus");
    reveal_strlit("aiff");
    reveal_strlit("mid");
    reveal_strlit("midi");
    reveal_strlit("ac3");
    reveal_strlit("mp4");
    reveal_strlit("mkv");
    reveal_strlit("avi");
    reveal_strlit("webm");
    reveal_strlit("mov");
    reveal_strlit("wmv");
    reveal_strlit("flv");
    reveal_strlit("m4v");
    reveal_strlit("mpg");
    reveal_strlit("mpeg");
    reveal_strlit("3gp");
    reveal_strlit("ogv");
    reveal_strlit("pdf");
    reveal_strlit("doc");
    reveal_strlit("docx");
    reveal_strlit("odt");
    reveal_strlit("rtf");
    reveal_strlit("epub");
    reveal_strlit("djvu");
    reveal_strlit("pages");
    reveal_strlit("md");
    reveal_strlit("markdown");
    reveal_strlit("rst");
    reveal_strlit("adoc");
    reveal_strlit("tex");
    reveal_strlit("latex");
    reveal_strlit("xls");
    reveal_strlit("xlsx");
    reveal_strlit("ods");
    reveal_strlit("csv");
    reveal_strlit("tsv");
    reveal_strlit("numbers");
    reveal_strlit("ppt");
    reveal_strlit("pptx");
    reveal_strlit("odp");
    reveal_strlit("key");
    reveal_strlit("odg");
    reveal_strlit("vsd");
    reveal_strlit("vsdx");
    reveal_strlit("dia");
    reveal_strlit("zip");
    reveal_strlit("tar");
    reveal_strlit("gz");
    reveal_strlit("bz2");
    reveal_strlit("xz");
    reveal_strlit("zst");
    reveal_strlit("lz4");
    reveal_strlit("lzma");
    reveal_strlit("7z");
    reveal_strlit("rar");
    reveal_strlit("deb");
    reveal_strlit("rpm");
    reveal_strlit("flatpak");
    reveal_strlit("snap");
    reveal_strlit("cab");
    reveal_strlit("cpio");
    reveal_strlit("ar");
    reveal_strlit("tgz");
    reveal_strlit("tbz2");
    reveal_strlit("txz");
    assert(
        "jpg"@.len() == 3 && "jpg"@[0] == 'j' && "jpg"@[1] == 'p' && "jpg"@[2] == 'g'
            && "jpeg"@.len() == 4 && "jpeg"@[0] == 'j' && "jpeg"@[1] == 'p' && "jpeg"@[2] == 'e' && "jpeg"@[3] == 'g'
            && "png"@.len() == 3 && "png"@[0] == 'p' && "png"@[1] == 'n' && "png"@[2] == 'g'
            && "gif"@.len() == 3 && "gif"@[0] == 'g' && "gif"@[1] == 'i' && "gif"@[2] == 'f'
            && "svg"@.len() == 3 && "svg"@[0] == 's' && "svg"@[1] == 'v' && "svg"@[2] == 'g'
            && "webp"@.len() == 4 && "webp"@[0] == 'w' && "webp"@[1] == 'e' && "webp"@[2] == 'b' && "webp"@[3] == 'p'
            && "bmp"@.len() == 3 && "bmp"@[0] == 'b' && "bmp"@[1] == 'm' && "bmp"@[2] == 'p'
            && "ico"@.len() == 3 && "ico"@[0] == 'i' && "ico"@[1] == 'c' && "ico"@[2] == 'o'
            && "tiff"@.len() == 4 && "tiff"@[0] == 't' && "tiff"@[1] == 'i' && "tiff"@[2] == 'f' && "tiff"@[3] == 'f'
            && "tif"@.len() == 3 && "tif"@[0] == 't' && "tif"@[1] == 'i' && "tif"@[2] == 'f'
            && "heic"@.len() == 4 && "heic"@[0] == 'h' && "heic"@[1] == 'e' && "heic"@[2] == 'i' && "heic"@[3] == 'c'
            && "heif"@.len() == 4 && "heif"@[0] == 'h' && "heif"@[1] == 'e' && "heif"@[2] == 'i' && "heif"@[3] == 'f'
            && "avif"@.len() == 4 && "avif"@[0] == 'a' && "avif"@[1] == 'v' && "avif"@[2] == 'i' && "avif"@[3] == 'f'
            && "raw"@.len() == 3 && "raw"@[0] == 'r' && "raw"@[1] == 'a' && "raw"@[2] == 'w'
            && "cr2"@.len() == 3 && "cr2"@[0] == 'c' && "cr2"@[1] == 'r' && "cr2"@[2] == '2'
            && "nef"@.len() == 3 && "nef"@[0] == 'n' && "nef"@[1] == 'e' && "nef"@[2] == 'f'
            && "psd"@.len() == 3 && "psd"@[0] == 'p' && "psd"@[1] == 's' && "psd"@[2] == 'd'
            && "xcf"@.len() == 3 && "xcf"@[0] == 'x' && "xcf"@[1] == 'c' && "xcf"@[2] == 'f'
            && "mp3"@.len() == 3 && "mp3"@[0] == 'm' && "mp3"@[1] == 'p' && "mp3"@[2] == '3'
            && "flac"@.len() == 4 && "flac"@[0] == 'f' && "flac"@[1] == 'l' && "flac"@[2] == 'a' && "flac"@[3] == 'c'
            && "ogg"@.len() == 3 && "ogg"@[0] == 'o' && "ogg"@[1] == 'g' && "ogg"@[2] == 'g'
            && "oga"@.len() == 3 && "oga"@[0] == 'o' && "oga"@[1] == 'g' && "oga"@[2] == 'a'
            && "wav"@.len() == 3 && "wav"@[0] == 'w' && "wav"@[1] == 'a' && "wav"@[2] == 'v'
            && "aac"@.len() == 3 && "aac"@[0] == 'a' && "aac"@[1] == 'a' && "aac"@[2] == 'c'
            && "wma"@.len() == 3 && "wma"@[0] == 'w' && "wma"@[1] == 'm' && "wma"@[2] == 'a'
            && "m4a"@.len() == 3 && "m4a"@[0] == 'm' && "m4a"@[1] == '4' && "m4a"@[2] == 'a'
            && "opus"@.len() == 4 && "opus"@[0] == 'o' && "opus"@[1] == 'p' && "opus"@[2] == 'u' && "opus"@[3] == 's'
            && "aiff"@.len() == 4 && "aiff"@[0] == 'a' && "aiff"@[1] == 'i' && "aiff"@[2] == 'f' && "aiff"@[3] == 'f'
            && "mid"@.len() == 3 && "mid"@[0] == 'm' && "mid"@[1] == 'i' && "mid"@[2] == 'd'
            && "midi"@.len() == 4 && "midi"@[0] == 'm' && "midi"@[1] == 'i' && "midi"@[2] == 'd' && "midi"@[3] == 'i'
            && "ac3"@.len() == 3 && "ac3"@[0] == 'a' && "ac3"@[1] == 'c' && "ac3"@[2] == '3'
            && "mp4"@.len() == 3 && "mp4"@[0] == 'm' && "mp4"@[1] == 'p' && "mp4"@[2] == '4'
            && "mkv"@.len() == 3 && "mkv"@[0] == 'm' && "mkv"@[1] == 'k' && "mkv"@[2] == 'v'
            && "avi"@.len() == 3 && "avi"@[0] == 'a' && "avi"@[1] == 'v' && "avi"@[2] == 'i'
            && "webm"@.len() == 4 && "webm"@[0] == 'w' && "webm"@[1] == 'e' && "webm"@[2] == 'b' && "webm"@[3] == 'm'
            && "mov"@.len() == 3 && "mov"@[0] == 'm' && "mov"@[1] == 'o' && "mov"@[2] == 'v'
            && "wmv"@.len() == 3 && "wmv"@[0] == 'w' && "wmv"@[1] == 'm' && "wmv"@[2] == 'v'
            && "flv"@.len() == 3 && "flv"@[0] == 'f' && "flv"@[1] == 'l' && "flv"@[2] == 'v'
            && "m4v"@.len() == 3 && "m4v"@[0] == 'm' && "m4v"@[1] == '4' && "m4v"@[2] == 'v'
            && "mpg"@.len() == 3 && "mpg"@[0] == 'm' && "mpg"@[1] == 'p' && "mpg"@[2] == 'g'
            && "mpeg"@.len() == 4 && "mpeg"@[0] == 'm' && "mpeg"@[1] == 'p' && "mpeg"@[2] == 'e' && "mpeg"@[3] == 'g'
            && "3gp"@.len() == 3 && "3gp"@[0] == '3' && "3gp"@[1] == 'g' && "3gp"@[2] == 'p'
            && "ogv"@.len() == 3 && "ogv"@[0] == 'o' && "ogv"@[1] == 'g' && "ogv"@[2] == 'v'
            && "pdf"@.len() == 3 && "pdf"@[0] == 'p' && "pdf"@[1] == 'd' && "pdf"@[2] == 'f'
            && "doc"@.len() == 3 && "doc"@[0] == 'd' && "doc"@[1] == 'o' && "doc"@[2] == 'c'
            && "docx"@.len() == 4 && "docx"@[0] == 'd' && "docx"@[1] == 'o' && "docx"@[2] == 'c' && "docx"@[3] == 'x'
            && "odt"@.len() == 3 && "odt"@[0] == 'o' && "odt"@[1] == 'd' && "odt"@[2] == 't'
            && "rtf"@.len() == 3 && "rtf"@[0] == 'r' && "rtf"@[1] == 't' && "rtf"@[2] == 'f'
            && "epub"@.len() == 4 && "epub"@[0] == 'e' && "epub"@[1] == 'p' && "epub"@[2] == 'u' && "epub"@[3] == 'b'
            && "djvu"@.len() == 4 && "djvu"@[0] == 'd' && "djvu"@[1] == 'j' && "djvu"@[2] == 'v' && "djvu"@[3] == 'u'
            && "pages"@.len() == 5 && "pages"@[0] == 'p' && "pages"@[1] == 'a' && "pages"@[2] == 'g' && "pages"@[3] == 'e' && "pages"@[4] == 's'
            && "md"@.len() == 2 && "md"@[0] == 'm' && "md"@[1] == 'd'
            && "markdown"@.len() == 8 && "markdown"@[0] == 'm' && "markdown"@[1] == 'a' && "markdown"@[2] == 'r' && "markdown"@[3] == 'k' && "markdown"@[4] == 'd' && "markdown"@[5] == 'o' && "markdown"@[6] == 'w' && "markdown"@[7] == 'n'
            && "rst"@.len() == 3 && "rst"@[0] == 'r' && "rst"@[1] == 's' && "rst"@[2] == 't'
            && "adoc"@.len() == 4 && "adoc"@[0] == 'a' && "adoc"@[1] == 'd' && "adoc"@[2] == 'o' && "adoc"@[3] == 'c'
            && "tex"@.len() == 3 && "tex"@[0] == 't' && "tex"@[1] == 'e' && "tex"@[2] == 'x'
            && "latex"@.len() == 5 && "latex"@[0] == 'l' && "latex"@[1] == 'a' && "latex"@[2] == 't' && "latex"@[3] == 'e' && "latex"@[4] == 'x'
            && "xls"@.len() == 3 && "xls"@[0] == 'x' && "xls"@[1] == 'l' && "xls"@[2] == 's'
            && "xlsx"@.len() == 4 && "xlsx"@[0] == 'x' && "xlsx"@[1] == 'l' && "xlsx"@[2] == 's' && "xlsx"@[3] == 'x'
            && "ods"@.len() == 3 && "ods"@[0] == 'o' && "ods"@[1] == 'd' && "ods"@[2] == 's'
            && "csv"@.len() == 3 && "csv"@[0] == 'c' && "csv"@[1] == 's' && "csv"@[2] == 'v'
            && "tsv"@.len() == 3 && "tsv"@[0] == 't' && "tsv"@[1] == 's' && "tsv"@[2] == 'v'
            && "numbers"@.len() == 7 && "numbers"@[0] == 'n' && "numbers"@[1] == 'u' && "numbers"@[2] == 'm' && "numbers"@[3] == 'b' && "numbers"@[4] == 'e' && "numbers"@[5] == 'r' && "numbers"@[6] == 's'
            && "ppt"@.len() == 3 && "ppt"@[0] == 'p' && "ppt"@[1] == 'p' && "ppt"@[2] == 't'
            && "pptx"@.len() == 4 && "pptx"@[0] == 'p' && "pptx"@[1] == 'p' && "pptx"@[2] == 't' && "pptx"@[3] == 'x'
            && "odp"@.len() == 3 && "odp"@[0] == 'o' && "odp"@[1] == 'd' && "odp"@[2] == 'p'
            && "key"@.len() == 3 && "key"@[0] == 'k' && "key"@[1] == 'e' && "key"@[2] == 'y'
            && "odg"@.len() == 3 && "odg"@[0] == 'o' && "odg"@[1] == 'd' && "odg"@[2] == 'g'
            && "vsd"@.len() == 3 && "vsd"@[0] == 'v' && "vsd"@[1] == 's' && "vsd"@[2] == 'd'
            && "vsdx"@.len() == 4 && "vsdx"@[0] == 'v' && "vsdx"@[1] == 's' && "vsdx"@[2] == 'd' && "vsdx"@[3] == 'x'
            && "dia"@.len() == 3 && "dia"@[0] == 'd' && "dia"@[1] == 'i' && "dia"@[2] == 'a'
            && "zip"@.len() == 3 && "zip"@[0] == 'z' && "zip"@[1] == 'i' && "zip"@[2] == 'p'
            && "tar"@.len() == 3 && "tar"@[0] == 't' && "tar"@[1] == 'a' && "tar"@[2] == 'r'
            && "gz"@.len() == 2 && "gz"@[0] == 'g' && "gz"@[1] == 'z'
            && "bz2"@.len() == 3 && "bz2"@[0] == 'b' && "bz2"@[1] == 'z' && "bz2"@[2] == '2'
            && "xz"@.len() == 2 && "xz"@[0] == 'x' && "xz"@[1] == 'z'
            && "zst"@.len() == 3 && "zst"@[0] == 'z' && "zst"@[1] == 's' && "zst"@[2] == 't'
            && "lz4"@.len() == 3 && "lz4"@[0] == 'l' && "lz4"@[1] == 'z' && "lz4"@[2] == '4'
            && "lzma"@.len() == 4 && "lzma"@[0] == 'l' && "lzma"@[1] == 'z' && "lzma"@[2] == 'm' && "lzma"@[3] == 'a'
            && "7z"@.len() == 2 && "7z"@[0] == '7' && "7z"@[1] == 'z'
            && "rar"@.len() == 3 && "rar"@[0] == 'r' && "rar"@[1] == 'a' && "rar"@[2] == 'r'
            && "deb"@.len() == 3 && "deb"@[0] == 'd' && "deb"@[1] == 'e' && "deb"@[2] == 'b'
            && "rpm"@.len() == 3 && "rpm"@[0] == 'r' && "rpm"@[1] == 'p' && "rpm"@[2] == 'm'
            && "flatpak"@.len() == 7 && "flatpak"@[0] == 'f' && "flatpak"@[1] == 'l' && "flatpak"@[2] == 'a' && "flatpak"@[3] == 't' && "flatpak"@[4] == 'p' && "flatpak"@[5] == 'a' && "flatpak"@[6] == 'k'
            && "snap"@.len() == 4 && "snap"@[0] == 's' && "snap"@[1] == 'n' && "snap"@[2] == 'a' && "snap"@[3] == 'p'
            && "cab"@.len() == 3 && "cab"@[0] == 'c' && "cab"@[1] == 'a' && "cab"@[2] == 'b'
            && "cpio"@.len() == 4 && "cpio"@[0] == 'c' && "cpio"@[1] == 'p' && "cpio"@[2] == 'i' && "cpio"@[3] == 'o'
            && "ar"@.len() == 2 && "ar"@[0] == 'a' && "ar"@[1] == 'r'
            && "tgz"@.len() == 3 && "tgz"@[0] == 't' && "tgz"@[1] == 'g' && "tgz"@[2] == 'z'
            && "tbz2"@.len() == 4 && "tbz2"@[0] == 't' && "tbz2"@[1] == 'b' && "tbz2"@[2] == 'z' && "tbz2"@[3] == '2'
            && "txz"@.len() == 3 && "txz"@[0] == 't' && "txz"@[1] == 'x' && "txz"@[2] == 'z'
    );
}

/// Every font extension of the table gets its icon.
proof fn lemma_icons_font()
    ensures
        icon_for_extension("ttf"@) == "font-x-generic-symbolic"@,
        icon_for_extension("otf"@) == "font-x-generic-symbolic"@,
        icon_for_extension("woff"@) == "font-x-generic-symbolic"@,
        icon_for_extension("woff2"@) == "font-x-generic-symbolic"@,
        icon_for_extension("eot"@) == "font-x-generic-symbolic"@,
{
    reveal_strlit("jpg");
    reveal_strlit("jpeg");
    reveal_strlit("png");
    reveal_strlit("gif");
    reveal_strlit("svg");
    reveal_strlit("webp");
    reveal_strlit("bmp");
    reveal_strlit("ico");
    reveal_strlit("tiff");
    reveal_strlit("tif");
    reveal_strlit("heic");
    reveal_strlit("heif");
    reveal_strlit("avif");
    reveal_strlit("raw");
    reveal_strlit("cr2");
    reveal_strlit("nef");
    reveal_strlit("psd");
    reveal_strlit("xcf");
    reveal_strlit("mp3");
    reveal_strlit("flac");
    reveal_strlit("ogg");
    reveal_strlit("oga");
    reveal_strlit("wav");
    reveal_strlit("aac");
    reveal_strlit("wma");
    reveal_strlit("m4a");
    reveal_strlit("opus");
    reveal_strlit("aiff");
    reveal_strlit("mid");
    reveal_strlit("midi");
    reveal_strlit("ac3");
    reveal_strlit("mp4");
    reveal_strlit("mkv");
    reveal_strlit("avi");
    reveal_strlit("webm");
    reveal_strlit("mov");
    reveal_strlit("wmv");
    reveal_strlit("flv");
    reveal_strlit("m4v");
    reveal_strlit("mpg");
    reveal_strlit("mpeg");
    reveal_strlit("3gp");
    reveal_strlit("ogv");
    reveal_strlit("pdf");
    reveal_strlit("doc");
    reveal_strlit("docx");
    reveal_strlit("odt");
    reveal_strlit("rtf");
    reveal_strlit("epub");
    reveal_strlit("djvu");
    reveal_strlit("pages");
    reveal_strlit("md");
    reveal_strlit("markdown");
    reveal_strlit("rst");
    reveal_strlit("adoc");
    reveal_strlit("tex");
    reveal_strlit("latex");
    reveal_strlit("xls");
    reveal_strlit("xlsx");
    reveal_strlit("ods");
    reveal_strlit("csv");
    reveal_strlit("tsv");
    reveal_strlit("numbers");
    reveal_strlit("ppt");
    reveal_strlit("pptx");
    reveal_strlit("odp");
    reveal_strlit("key");
    reveal_strlit("odg");
    reveal_strlit("vsd");
    reveal_strlit("vsdx");
    reveal_strlit("dia");
    reveal_strlit("zip");
    reveal_strlit("tar");
    reveal_strlit("gz");
    reveal_strlit("bz2");
    reveal_strlit("xz");
    reveal_strlit("zst");
    reveal_strlit("lz4");
    reveal_strlit("lzma");
    reveal_strlit("7z");
    reveal_strlit("rar");
    reveal_strlit("deb");
    reveal_strlit("rpm");
    reveal_strlit("flatpak");
    reveal_strlit("snap");
    reveal_strlit("cab");
    reveal_strlit("cpio");
    reveal_strlit("ar");
    reveal_strlit("tgz");
    reveal_strlit("tbz2");
    reveal_strlit("txz");
    reveal_strlit("ttf");
    reveal_strlit("otf");
    reveal_strlit("woff");
    reveal_strlit("woff2");
    reveal_strlit("eot");
    assert(
        "jpg"@.len() == 3 && "jpg"@[0] == 'j' && "jpg"@[1] == 'p' && "jpg"@[2] == 'g'
            && "jpeg"@.len() == 4 && "jpeg"@[0] == 'j' && "jpeg"@[1] == 'p' && "jpeg"@[2] == 'e' && "jpeg"@[3] == 'g'
            && "png"@.len() == 3 && "png"@[0] == 'p' && "png"@[1] == 'n' && "png"@[2] == 'g'
            && "gif"@.len() == 3 && "gif"@[0] == 'g' && "gif"@[1] == 'i' && "gif"@[2] == 'f'
            && "svg"@.len() == 3 && "svg"@[0] == 's' && "svg"@[1] == 'v' && "svg"@[2] == 'g'
            && "webp"@.len() == 4 && "webp"@[0] == 'w' && "webp"@[1] == 'e' && "webp"@[2] == 'b' && "webp"@[3] == 'p'
            && "bmp"@.len() == 3 && "bmp"@[0] == 'b' && "bmp"@[1] == 'm' && "bmp"@[2] == 'p'
            && "ico"@.len() == 3 && "ico"@[0] == 'i' && "ico"@[1] == 'c' && "ico"@[2] == 'o'
            && "tiff"@.len() == 4 && "tiff"@[0] == 't' && "tiff"@[1] == 'i' && "tiff"@[2] == 'f' && "tiff"@[3] == 'f'
            && "tif"@.len() == 3 && "tif"@[0] == 't' && "tif"@[1] == 'i' && "tif"@[2] == 'f'
            && "heic"@.len() == 4 && "heic"@[0] == 'h' && "heic"@[1] == 'e' && "heic"@[2] == 'i' && "heic"@[3] == 'c'
            && "heif"@.len() == 4 && "heif"@[0] == 'h' && "heif"@[1] == 'e' && "heif"@[2] == 'i' && "heif"@[3] == 'f'
            && "avif"@.len() == 4 && "avif"@[0] == 'a' && "avif"@[1] == 'v' && "avif"@[2] == 'i' && "avif"@[3] == 'f'
            && "raw"@.len() == 3 && "raw"@[0] == 'r' && "raw"@[1] == 'a' && "raw"@[2] == 'w'
            && "cr2"@.len() == 3 && "cr2"@[0] == 'c' && "cr2"@[1] == 'r' && "cr2"@[2] == '2'
            && "nef"@.len() == 3 && "nef"@[0] == 'n' && "nef"@[1] == 'e' && "nef"@[2] == 'f'
            && "psd"@.len() == 3 && "psd"@[0] == 'p' && "psd"@[1] == 's' && "psd"@[2] == 'd'
            && "xcf"@.len() == 3 && "xcf"@[0] == 'x' && "xcf"@[1] == 'c' && "xcf"@[2] == 'f'
            && "mp3"@.len() == 3 && "mp3"@[0] == 'm' && "mp3"@[1] == 'p' && "mp3"@[2] == '3'
            && "flac"@.len() == 4 && "flac"@[0] == 'f' && "flac"@[1] == 'l' && "flac"@[2] == 'a' && "flac"@[3] == 'c'
            && "ogg"@.len() == 3 && "ogg"@[0] == 'o' && "ogg"@[1] == 'g' && "ogg"@[2] == 'g'
            && "oga"@.len() == 3 && "oga"@[0] == 'o' && "oga"@[1] == 'g' && "oga"@[2] == 'a'
            && "wav"@.len() == 3 && "wav"@[0] == 'w' && "wav"@[1] == 'a' && "wav"@[2] == 'v'
            && "aac"@.len() == 3 && "aac"@[0] == 'a' && "aac"@[1] == 'a' && "aac"@[2] == 'c'
            && "wma"@.len() == 3 && "wma"@[0] == 'w' && "wma"@[1] == 'm' && "wma"@[2] == 'a'
            && "m4a"@.len() == 3 && "m4a"@[0] == 'm' && "m4a"@[1] == '4' && "m4a"@[2] == 'a'
            && "opus"@.len() == 4 && "opus"@[0] == 'o' && "opus"@[1] == 'p' && "opus"@[2] == 'u' && "opus"@[3] == 's'
            && "aiff"@.len() == 4 && "aiff"@[0] == 'a' && "aiff"@[1] == 'i' && "aiff"@[2] == 'f' && "aiff"@[3] == 'f'
            && "mid"@.len() == 3 && "mid"@[0] == 'm' && "mid"@[1] == 'i' && "mid"@[2] == 'd'
            && "midi"@.len() == 4 && "midi"@[0] == 'm' && "midi"@[1] == 'i' && "midi"@[2] == 'd' && "midi"@[3] == 'i'
            && "ac3"@.len() == 3 && "ac3"@[0] == 'a' && "ac3"@[1] == 'c' && "ac3"@[2] == '3'
            && "mp4"@.len() == 3 && "mp4"@[0] == 'm' && "mp4"@[1] == 'p' && "mp4"@[2] == '4'
            && "mkv"@.len() == 3 && "mkv"@[0] == 'm' && "mkv"@[1] == 'k' && "mkv"@[2] == 'v'
            && "avi"@.len() == 3 && "avi"@[0] == 'a' && "avi"@[1] == 'v' && "avi"@[2] == 'i'
            && "webm"@.len() == 4 && "webm"@[0] == 'w' && "webm"@[1] == 'e' && "webm"@[2] == 'b' && "webm"@[3] == 'm'
            && "mov"@.len() == 3 && "mov"@[0] == 'm' && "mov"@[1] == 'o' && "mov"@[2] == 'v'
            && "wmv"@.len() == 3 && "wmv"@[0] == 'w' && "wmv"@[1] == 'm' && "wmv"@[2] == 'v'
            && "flv"@.len() == 3 && "flv"@[0] == 'f' && "flv"@[1] == 'l' && "flv"@[2] == 'v'
            && "m4v"@.len() == 3 && "m4v"@[0] == 'm' && "m4v"@[1] == '4' && "m4v"@[2] == 'v'
            && "mpg"@.len() == 3 && "mpg"@[0] == 'm' && "mpg"@[1] == 'p' && "mpg"@[2] == 'g'
            && "mpeg"@.len() == 4 && "mpeg"@[0] == 'm' && "mpeg"@[1] == 'p' && "mpeg"@[2] == 'e' && "mpeg"@[3] == 'g'
            && "3gp"@.len() == 3 && "3gp"@[0] == '3' && "3gp"@[1] == 'g' && "3gp"@[2] == 'p'
            && "ogv"@.len() == 3 && "ogv"@[0] == 'o' && "ogv"@[1] == 'g' && "ogv"@[2] == 'v'
            && "pdf"@.len() == 3 && "pdf"@[0] == 'p' && "pdf"@[1] == 'd' && "pdf"@[2] == 'f'
            && "doc"@.len() == 3 && "doc"@[0] == 'd' && "doc"@[1] == 'o' && "doc"@[2] == 'c'
            && "docx"@.len() == 4 && "docx"@[0] == 'd' && "docx"@[1] == 'o' && "docx"@[2] == 'c' && "docx"@[3] == 'x'
            && "odt"@.len() == 3 && "odt"@[0] == 'o' && "odt"@[1] == 'd' && "odt"@[2] == 't'
            && "rtf"@.len() == 3 && "rtf"@[0] == 'r' && "rtf"@[1] == 't' && "rtf"@[2] == 'f'
            && "epub"@.len() == 4 && "epub"@[0] == 'e' && "epub"@[1] == 'p' && "epub"@[2] == 'u' && "epub"@[3] == 'b'
            && "djvu"@.len() == 4 && "djvu"@[0] == 'd' && "djvu"@[1] == 'j' && "djvu"@[2] == 'v' && "djvu"@[3] == 'u'
            && "pages"@.len() == 5 && "pages"@[0] == 'p' && "pages"@[1] == 'a' && "pages"@[2] == 'g' && "pages"@[3] == 'e' && "pages"@[4] == 's'
            && "md"@.len() == 2 && "md"@[0] == 'm' && "md"@[1] == 'd'
            && "markdown"@.len() == 8 && "markdown"@[0] == 'm' && "markdown"@[1] == 'a' && "markdown"@[2] == 'r' && "markdown"@[3] == 'k' && "markdown"@[4] == 'd' && "markdown"@[5] == 'o' && "markdown"@[6] == 'w' && "markdown"@[7] == 'n'
            && "rst"@.len() == 3 && "rst"@[0] == 'r' && "rst"@[1] == 's' && "rst"@[2] == 't'
            && "adoc"@.len() == 4 && "adoc"@[0] == 'a' && "adoc"@[1] == 'd' && "adoc"@[2] == 'o' && "adoc"@[3] == 'c'
            && "tex"@.len() == 3 && "tex"@[0] == 't' && "tex"@[1] == 'e' && "tex"@[2] == 'x'
            && "latex"@.len() == 5 && "latex"@[0] == 'l' && "latex"@[1] == 'a' && "latex"@[2] == 't' && "latex"@[3] == 'e' && "latex"@[4] == 'x'
            && "xls"@.len() == 3 && "xls"@[0] == 'x' && "xls"@[1] == 'l' && "xls"@[2] == 's'
            && "xlsx"@.len() == 4 && "xlsx"@[0] == 'x' && "xlsx"@[1] == 'l' && "xlsx"@[2] == 's' && "xlsx"@[3] == 'x'
            && "ods"@.len() == 3 && "ods"@[0] == 'o' && "ods"@[1] == 'd' && "ods"@[2] == 's'
            && "csv"@.len() == 3 && "csv"@[0] == 'c' && "csv"@[1] == 's' && "csv"@[2] == 'v'
            && "tsv"@.len() == 3 && "tsv"@[0] == 't' && "tsv"@[1] == 's' && "tsv"@[2] == 'v'
            && "numbers"@.len() == 7 && "numbers"@[0] == 'n' && "numbers"@[1] == 'u' && "numbers"@[2] == 'm' && "numbers"@[3] == 'b' && "numbers"@[4] == 'e' && "numbers"@[5] == 'r' && "numbers"@[6] == 's'
            && "ppt"@.len() == 3 && "ppt"@[0] == 'p' && "ppt"@[1] == 'p' && "ppt"@[2] == 't'
            && "pptx"@.len() == 4 && "pptx"@[0] == 'p' && "pptx"@[1] == 'p' && "pptx"@[2] == 't' && "pptx"@[3] == 'x'
            && "odp"@.len() == 3 && "odp"@[0] == 'o' && "odp"@[1] == 'd' && "odp"@[2] == 'p'
            && "key"@.len() == 3 && "key"@[0] == 'k' && "key"@[1] == 'e' && "key"@[2] == 'y'
            && "odg"@.len() == 3 && "odg"@[0] == 'o' && "odg"@[1] == 'd' && "odg"@[2] == 'g'
            && "vsd"@.len() == 3 && "vsd"@[0] == 'v' && "vsd"@[1] == 's' && "vsd"@[2] == 'd'
            && "vsdx"@.len() == 4 && "vsdx"@[0] == 'v' && "vsdx"@[1] == 's' && "vsdx"@[2] == 'd' && "vsdx"@[3] == 'x'
            && "dia"@.len() == 3 && "dia"@[0] == 'd' && "dia"@[1] == 'i' && "dia"@[2] == 'a'
            && "zip"@.len() == 3 && "zip"@[0] == 'z' && "zip"@[1] == 'i' && "zip"@[2] == 'p'
            && "tar"@.len() == 3 && "tar"@[0] == 't' && "tar"@[1] == 'a' && "tar"@[2] == 'r'
            && "gz"@.len() == 2 && "gz"@[0] == 'g' && "gz"@[1] == 'z'
            && "bz2"@.len() == 3 && "bz2"@[0] == 'b' && "bz2"@[1] == 'z' && "bz2"@[2] == '2'
            && "xz"@.len() == 2 && "xz"@[0] == 'x' && "xz"@[1] == 'z'
            && "zst"@.len() == 3 && "zst"@[0] == 'z' && "zst"@[1] == 's' && "zst"@[2] == 't'
            && "lz4"@.len() == 3 && "lz4"@[0] == 'l' && "lz4"@[1] == 'z' && "lz4"@[2] == '4'
            && "lzma"@.len() == 4 && "lzma"@[0] == 'l' && "lzma"@[1] == 'z' && "lzma"@[2] == 'm' && "lzma"@[3] == 'a'
            && "7z"@.len() == 2 && "7z"@[0] == '7' && "7z"@[1] == 'z'
            && "rar"@.len() == 3 && "rar"@[0] == 'r' && "rar"@[1] == 'a' && "rar"@[2] == 'r'
            && "deb"@.len() == 3 && "deb"@[0] == 'd' && "deb"@[1] == 'e' && "deb"@[2] == 'b'
            && "rpm"@.len() == 3 && "rpm"@[0] == 'r' && "rpm"@[1] == 'p' && "rpm"@[2] == 'm'
            && "flatpak"@.len() == 7 && "flatpak"@[0] == 'f' && "flatpak"@[1] == 'l' && "flatpak"@[2] == 'a' && "flatpak"@[3] == 't' && "flatpak"@[4] == 'p' && "flatpak"@[5] == 'a' && "flatpak"@[6] == 'k'
            && "snap"@.len() == 4 && "snap"@[0] == 's' && "snap"@[1] == 'n' && "snap"@[2] == 'a' && "snap"@[3] == 'p'
            && "cab"@.len() == 3 && "cab"@[0] == 'c' && "cab"@[1] == 'a' && "cab"@[2] == 'b'
            && "cpio"@.len() == 4 && "cpio"@[0] == 'c' && "cpio"@[1] == 'p' && "cpio"@[2] == 'i' && "cpio"@[3] == 'o'
            && "ar"@.len() == 2 && "ar"@[0] == 'a' && "ar"@[1] == 'r'
            && "tgz"@.len() == 3 && "tgz"@[0] == 't' && "tgz"@[1] == 'g' && "tgz"@[2] == 'z'
            && "tbz2"@.len() == 4 && "tbz2"@[0] == 't' && "tbz2"@[1] == 'b' && "tbz2"@[2] == 'z' && "tbz2"@[3] == '2'
            && "txz"@.len() == 3 && "txz"@[0] == 't' && "txz"@[1] == 'x' && "txz"@[2] == 'z'
            && "ttf"@.len() == 3 && "ttf"@[0] == 't' && "ttf"@[1] == 't' && "ttf"@[2] == 'f'
            && "otf"@.len() == 3 && "otf"@[0] == 'o' && "otf"@[1] == 't' && "otf"@[2] == 'f'
            && "woff"@.len() == 4 && "woff"@[0] == 'w' && "woff"@[1] == 'o' && "woff"@[2] == 'f' && "woff"@[3] == 'f'
            && "woff2"@.len() == 5 && "woff2"@[0] == 'w' && "woff2"@[1] == 'o' && "woff2"@[2] == 'f' && "woff2"@[3] == 'f' && "woff2"@[4] == '2'
            && "eot"@.len() == 3 && "eot"@[0] == 'e' && "eot"@[1] == 'o' && "eot"@[2] == 't'
    );
}

/// Every executable extension of the table gets its icon.
proof fn lemma_icons_executable()
    ensures
        icon_for_extension("exe"@) == "application-x-executable-symbolic"@,
        icon_for_extension("msi"@) == "application-x-executable-symbolic"@,
        icon_for_extension("bin"@) == "application-x-executable-symbolic"@,
        icon_for_extension("appimage"@) == "application-x-executable-symbolic"@,
        icon_for_extension("run"@) == "application-x-executable-symbolic"@,
        icon_for_extension("dmg"@) == "application-x-executable-symbolic"@,
        icon_for_extension("pkg"@) == "application-x-executable-symbolic"@,
{
    reveal_strlit("jpg");
    reveal_strlit("jpeg");
    reveal_strlit("png");
    reveal_strlit("gif");
    reveal_strlit("svg");
    reveal_strlit("webp");
    reveal_strlit("bmp");
    reveal_strlit("ico");
    reveal_strlit("tiff");
    reveal_strlit("tif");
    reveal_strlit("heic");
    reveal_strlit("heif");
    reveal_strlit("avif");
    reveal_strlit("raw");
    reveal_strlit("cr2");
    reveal_strlit("nef");
    reveal_strlit("psd");
    reveal_strlit("xcf");
    reveal_strlit("mp3");
    reveal_strlit("flac");
    reveal_strlit("ogg");
    reveal_strlit("oga");
    reveal_strlit("wav");
    reveal_strlit("aac");
    reveal_strlit("wma");
    reveal_strlit("m4a");
    reveal_strlit("opus");
    reveal_strlit("aiff");
    reveal_strlit("mid");
    reveal_strlit("midi");
    reveal_strlit("ac3");
    reveal_strlit("mp4");
    reveal_strlit("mkv");
    reveal_strlit("avi");
    reveal_strlit("webm");
    reveal_strlit("mov");
    reveal_strlit("wmv");
    reveal_strlit("flv");
    reveal_strlit("m4v");
    reveal_strlit("mpg");
    reveal_strlit("mpeg");
    reveal_strlit("3gp");
    reveal_strlit("ogv");
    reveal_strlit("pdf");
    reveal_strlit("doc");
    reveal_strlit("docx");
    reveal_strlit("odt");
    reveal_strlit("rtf");
    reveal_strlit("epub");
    reveal_strlit("djvu");
    reveal_strlit("pages");
    reveal_strlit("md");
    reveal_strlit("markdown");
    reveal_strlit("rst");
    reveal_strlit("adoc");
    reveal_strlit("tex");
    reveal_strlit("latex");
    reveal_strlit("xls");
    reveal_strlit("xlsx");
    reveal_strlit("ods");
    reveal_strlit("csv");
    reveal_strlit("tsv");
    reveal_strlit("numbers");
    reveal_strlit("ppt");
    reveal_strlit("pptx");
    reveal_strlit("odp");
    reveal_strlit("key");
    reveal_strlit("odg");
    reveal_strlit("vsd");
    reveal_strlit("vsdx");
    reveal_strlit("dia");
    reveal_strlit("zip");
    reveal_strlit("tar");
    reveal_strlit("gz");
    reveal_strlit("bz2");
    reveal_strlit("xz");
    reveal_strlit("zst");
    reveal_strlit("lz4");
    reveal_strlit("lzma");
    reveal_strlit("7z");
    reveal_strlit("rar");
    reveal_strlit("deb");
    reveal_strlit("rpm");
    reveal_strlit("flatpak");
    reveal_strlit("snap");
    reveal_strlit("cab");
    reveal_strlit("cpio");
    reveal_strlit("ar");
    reveal_strlit("tgz");
    reveal_strlit("tbz2");
    reveal_strlit("txz");
    reveal_strlit("ttf");
    reveal_strlit("otf");
    reveal_strlit("woff");
    reveal_strlit("woff2");
    reveal_strlit("eot");
    reveal_strlit("exe");
    reveal_strlit("msi");
    reveal_strlit("bin");
    reveal_strlit("appimage");
    reveal_strlit("run");
    reveal_strlit("dmg");
    reveal_strlit("pkg");
    assert(
        "jpg"@.len() == 3 && "jpg"@[0] == 'j' && "jpg"@[1] == 'p' && "jpg"@[2] == 'g'
            && "jpeg"@.len() == 4 && "jpeg"@[0] == 'j' && "jpeg"@[1] == 'p' && "jpeg"@[2] == 'e' && "jpeg"@[3] == 'g'
            && "png"@.len() == 3 && "png"@[0] == 'p' && "png"@[1] == 'n' && "png"@[2] == 'g'
            && "gif"@.len() == 3 && "gif"@[0] == 'g' && "gif"@[1] == 'i' && "gif"@[2] == 'f'
            && "svg"@.len() == 3 && "svg"@[0] == 's' && "svg"@[1] == 'v' && "svg"@[2] == 'g'
            && "webp"@.len() == 4 && "webp"@[0] == 'w' && "webp"@[1] == 'e' && "webp"@[2] == 'b' && "webp"@[3] == 'p'
            && "bmp"@.len() == 3 && "bmp"@[0] == 'b' && "bmp"@[1] == 'm' && "bmp"@[2] == 'p'
            && "ico"@.len() == 3 && "ico"@[0] == 'i' && "ico"@[1] == 'c' && "ico"@[2] == 'o'
            && "tiff"@.len() == 4 && "tiff"@[0] == 't' && "tiff"@[1] == 'i' && "tiff"@[2] == 'f' && "tiff"@[3] == 'f'
            && "tif"@.len() == 3 && "tif"@[0] == 't' && "tif"@[1] == 'i' && "tif"@[2] == 'f'
            && "heic"@.len() == 4 && "heic"@[0] == 'h' && "heic"@[1] == 'e' && "heic"@[2] == 'i' && "heic"@[3] == 'c'
            && "heif"@.len() == 4 && "heif"@[0] == 'h' && "heif"@[1] == 'e' && "heif"@[2] == 'i' && "heif"@[3] == 'f'
            && "avif"@.len() == 4 && "avif"@[0] == 'a' && "avif"@[1] == 'v' && "avif"@[2] == 'i' && "avif"@[3] == 'f'
            && "raw"@.len() == 3 && "raw"@[0] == 'r' && "raw"@[1] == 'a' && "raw"@[2] == 'w'
            && "cr2"@.len() == 3 && "cr2"@[0] == 'c' && "cr2"@[1] == 'r' && "cr2"@[2] == '2'
            && "nef"@.len() == 3 && "nef"@[0] == 'n' && "nef"@[1] == 'e' && "nef"@[2] == 'f'
            && "psd"@.len() == 3 && "psd"@[0] == 'p' && "psd"@[1] == 's' && "psd"@[2] == 'd'
            && "xcf"@.len() == 3 && "xcf"@[0] == 'x' && "xcf"@[1] == 'c' && "xcf"@[2] == 'f'
            && "mp3"@.len() == 3 && "mp3"@[0] == 'm' && "mp3"@[1] == 'p' && "mp3"@[2] == '3'
            && "flac"@.len() == 4 && "flac"@[0] == 'f' && "flac"@[1] == 'l' && "flac"@[2] == 'a' && "flac"@[3] == 'c'
            && "ogg"@.len() == 3 && "ogg"@[0] == 'o' && "ogg"@[1] == 'g' && "ogg"@[2] == 'g'
            && "oga"@.len() == 3 && "oga"@[0] == 'o' && "oga"@[1] == 'g' && "oga"@[2] == 'a'
            && "wav"@.len() == 3 && "wav"@[0] == 'w' && "wav"@[1] == 'a' && "wav"@[2] == 'v'
            && "aac"@.len() == 3 && "aac"@[0] == 'a' && "aac"@[1] == 'a' && "aac"@[2] == 'c'
            && "wma"@.len() == 3 && "wma"@[0] == 'w' && "wma"@[1] == 'm' && "wma"@[2] == 'a'
            && "m4a"@.len() == 3 && "m4a"@[0] == 'm' && "m4a"@[1] == '4' && "m4a"@[2] == 'a'
            && "opus"@.len() == 4 && "opus"@[0] == 'o' && "opus"@[1] == 'p' && "opus"@[2] == 'u' && "opus"@[3] == 's'
            && "aiff"@.len() == 4 && "aiff"@[0] == 'a' && "aiff"@[1] == 'i' && "aiff"@[2] == 'f' && "aiff"@[3] == 'f'
            && "mid"@.len() == 3 && "mid"@[0] == 'm' && "mid"@[1] == 'i' && "mid"@[2] == 'd'
            && "midi"@.len() == 4 && "midi"@[0] == 'm' && "midi"@[1] == 'i' && "midi"@[2] == 'd' && "midi"@[3] == 'i'
            && "ac3"@.len() == 3 && "ac3"@[0] == 'a' && "ac3"@[1] == 'c' && "ac3"@[2] == '3'
            && "mp4"@.len() == 3 && "mp4"@[0] == 'm' && "mp4"@[1] == 'p' && "mp4"@[2] == '4'
            && "mkv"@.len() == 3 && "mkv"@[0] == 'm' && "mkv"@[1] == 'k' && "mkv"@[2] == 'v'
            && "avi"@.len() == 3 && "avi"@[0] == 'a' && "avi"@[1] == 'v' && "avi"@[2] == 'i'
            && "webm"@.len() == 4 && "webm"@[0] == 'w' && "webm"@[1] == 'e' && "webm"@[2] == 'b' && "webm"@[3] == 'm'
            && "mov"@.len() == 3 && "mov"@[0] == 'm' && "mov"@[1] == 'o' && "mov"@[2] == 'v'
            && "wmv"@.len() == 3 && "wmv"@[0] == 'w' && "wmv"@[1] == 'm' && "wmv"@[2] == 'v'
            && "flv"@.len() == 3 && "flv"@[0] == 'f' && "flv"@[1] == 'l' && "flv"@[2] == 'v'
            && "m4v"@.len() == 3 && "m4v"@[0] == 'm' && "m4v"@[1] == '4' && "m4v"@[2] == 'v'
            && "mpg"@.len() == 3 && "mpg"@[0] == 'm' && "mpg"@[1] == 'p' && "mpg"@[2] == 'g'
            && "mpeg"@.len() == 4 && "mpeg"@[0] == 'm' && "mpeg"@[1] == 'p' && "mpeg"@[2] == 'e' && "mpeg"@[3] == 'g'
            && "3gp"@.len() == 3 && "3gp"@[0] == '3' && "3gp"@[1] == 'g' && "3gp"@[2] == 'p'
            && "ogv"@.len() == 3 && "ogv"@[0] == 'o' && "ogv"@[1] == 'g' && "ogv"@[2] == 'v'
            && "pdf"@.len() == 3 && "pdf"@[0] == 'p' && "pdf"@[1] == 'd' && "pdf"@[2] == 'f'
            && "doc"@.len() == 3 && "doc"@[0] == 'd' && "doc"@[1] == 'o' && "doc"@[2] == 'c'
            && "docx"@.len() == 4 && "docx"@[0] == 'd' && "docx"@[1] == 'o' && "docx"@[2] == 'c' && "docx"@[3] == 'x'
            && "odt"@.len() == 3 && "odt"@[0] == 'o' && "odt"@[1] == 'd' && "odt"@[2] == 't'
            && "rtf"@.len() == 3 && "rtf"@[0] == 'r' && "rtf"@[1] == 't' && "rtf"@[2] == 'f'
            && "epub"@.len() == 4 && "epub"@[0] == 'e' && "epub"@[1] == 'p' && "epub"@[2] == 'u' && "epub"@[3] == 'b'
            && "djvu"@.len() == 4 && "djvu"@[0] == 'd' && "djvu"@[1] == 'j' && "djvu"@[2] == 'v' && "djvu"@[3] == 'u'
            && "pages"@.len() == 5 && "pages"@[0] == 'p' && "pages"@[1] == 'a' && "pages"@[2] == 'g' && "pages"@[3] == 'e' && "pages"@[4] == 's'
            && "md"@.len() == 2 && "md"@[0] == 'm' && "md"@[1] == 'd'
            && "markdown"@.len() == 8 && "markdown"@[0] == 'm' && "markdown"@[1] == 'a' && "markdown"@[2] == 'r' && "markdown"@[3] == 'k' && "markdown"@[4] == 'd' && "markdown"@[5] == 'o' && "markdown"@[6] == 'w' && "markdown"@[7] == 'n'
            && "rst"@.len() == 3 && "rst"@[0] == 'r' && "rst"@[1] == 's' && "rst"@[2] == 't'
            && "adoc"@.len() == 4 && "adoc"@[0] == 'a' && "adoc"@[1] == 'd' && "adoc"@[2] == 'o' && "adoc"@[3] == 'c'
            && "tex"@.len() == 3 && "tex"@[0] == 't' && "tex"@[1] == 'e' && "tex"@[2] == 'x'
            && "latex"@.len() == 5 && "latex"@[0] == 'l' && "latex"@[1] == 'a' && "latex"@[2] == 't' && "latex"@[3] == 'e' && "latex"@[4] == 'x'
            && "xls"@.len() == 3 && "xls"@[0] == 'x' && "xls"@[1] == 'l' && "xls"@[2] == 's'
            && "xlsx"@.len() == 4 && "xlsx"@[0] == 'x' && "xlsx"@[1] == 'l' && "xlsx"@[2] == 's' && "xlsx"@[3] == 'x'
            && "ods"@.len() == 3 && "ods"@[0] == 'o' && "ods"@[1] == 'd' && "ods"@[2] == 's'
            && "csv"@.len() == 3 && "csv"@[0] == 'c' && "csv"@[1] == 's' && "csv"@[2] == 'v'
            && "tsv"@.len() == 3 && "tsv"@[0] == 't' && "tsv"@[1] == 's' && "tsv"@[2] == 'v'
            && "numbers"@.len() == 7 && "numbers"@[0] == 'n' && "numbers"@[1] == 'u' && "numbers"@[2] == 'm' && "numbers"@[3] == 'b' && "numbers"@[4] == 'e' && "numbers"@[5] == 'r' && "numbers"@[6] == 's'
            && "ppt"@.len() == 3 && "ppt"@[0] == 'p' && "ppt"@[1] == 'p' && "ppt"@[2] == 't'
            && "pptx"@.len() == 4 && "pptx"@[0] == 'p' && "pptx"@[1] == 'p' && "pptx"@[2] == 't' && "pptx"@[3] == 'x'
            && "odp"@.len() == 3 && "odp"@[0] == 'o' && "odp"@[1] == 'd' && "odp"@[2] == 'p'
            && "key"@.len() == 3 && "key"@[0] == 'k' && "key"@[1] == 'e' && "key"@[2] == 'y'
            && "odg"@.len() == 3 && "odg"@[0] == 'o' && "odg"@[1] == 'd' && "odg"@[2] == 'g'
            && "vsd"@.len() == 3 && "vsd"@[0] == 'v' && "vsd"@[1] == 's' && "vsd"@[2] == 'd'
            && "vsdx"@.len() == 4 && "vsdx"@[0] == 'v' && "vsdx"@[1] == 's' && "vsdx"@[2] == 'd' && "vsdx"@[3] == 'x'
            && "dia"@.len() == 3 && "dia"@[0] == 'd' && "dia"@[1] == 'i' && "dia"@[2] == 'a'
            && "zip"@.len() == 3 && "zip"@[0] == 'z' && "zip"@[1] == 'i' && "zip"@[2] == 'p'
            && "tar"@.len() == 3 && "tar"@[0] == 't' && "tar"@[1] == 'a' && "tar"@[2] == 'r'
            && "gz"@.len() == 2 && "gz"@[0] == 'g' && "gz"@[1] == 'z'
            && "bz2"@.len() == 3 && "bz2"@[0] == 'b' && "bz2"@[1] == 'z' && "bz2"@[2] == '2'
            && "xz"@.len() == 2 && "xz"@[0] == 'x' && "xz"@[1] == 'z'
            && "zst"@.len() == 3 && "zst"@[0] == 'z' && "zst"@[1] == 's' && "zst"@[2] == 't'
            && "lz4"@.len() == 3 && "lz4"@[0] == 'l' && "lz4"@[1] == 'z' && "lz4"@[2] == '4'
            && "lzma"@.len() == 4 && "lzma"@[0] == 'l' && "lzma"@[1] == 'z' && "lzma"@[2] == 'm' && "lzma"@[3] == 'a'
            && "7z"@.len() == 2 && "7z"@[0] == '7' && "7z"@[1] == 'z'
            && "rar"@.len() == 3 && "rar"@[0] == 'r' && "rar"@[1] == 'a' && "rar"@[2] == 'r'
            && "deb"@.len() == 3 && "deb"@[0] == 'd' && "deb"@[1] == 'e' && "deb"@[2] == 'b'
            && "rpm"@.len() == 3 && "rpm"@[0] == 'r' && "rpm"@[1] == 'p' && "rpm"@[2] == 'm'
            && "flatpak"@.len() == 7 && "flatpak"@[0] == 'f' && "flatpak"@[1] == 'l' && "flatpak"@[2] == 'a' && "flatpak"@[3] == 't' && "flatpak"@[4] == 'p' && "flatpak"@[5] == 'a' && "flatpak"@[6] == 'k'
            && "snap"@.len() == 4 && "snap"@[0] == 's' && "snap"@[1] == 'n' && "snap"@[2] == 'a' && "snap"@[3] == 'p'
            && "cab"@.len() == 3 && "cab"@[0] == 'c' && "cab"@[1] == 'a' && "cab"@[2] == 'b'
            && "cpio"@.len() == 4 && "cpio"@[0] == 'c' && "cpio"@[1] == 'p' && "cpio"@[2] == 'i' && "cpio"@[3] == 'o'
            && "ar"@.len() == 2 && "ar"@[0] == 'a' && "ar"@[1] == 'r'
            && "tgz"@.len() == 3 && "tgz"@[0] == 't' && "tgz"@[1] == 'g' && "tgz"@[2] == 'z'
            && "tbz2"@.len() == 4 && "tbz2"@[0] == 't' && "tbz2"@[1] == 'b' && "tbz2"@[2] == 'z' && "tbz2"@[3] == '2'
            && "txz"@.len() == 3 && "txz"@[0] == 't' && "txz"@[1] == 'x' && "txz"@[2] == 'z'
            && "ttf"@.len() == 3 && "ttf"@[0] == 't' && "ttf"@[1] == 't' && "ttf"@[2] == 'f'
            && "otf"@.len() == 3 && "otf"@[0] == 'o' && "otf"@[1] == 't' && "otf"@[2] == 'f'
            && "woff"@.len() == 4 && "woff"@[0] == 'w' && "woff"@[1] == 'o' && "woff"@[2] == 'f' && "woff"@[3] == 'f'
            && "woff2"@.len() == 5 && "woff2"@[0] == 'w' && "woff2"@[1] == 'o' && "woff2"@[2] == 'f' && "woff2"@[3] == 'f' && "woff2"@[4] == '2'
            && "eot"@.len() == 3 && "eot"@[0] == 'e' && "eot"@[1] == 'o' && "eot"@[2] == 't'
            && "exe"@.len() == 3 && "exe"@[0] == 'e' && "exe"@[1] == 'x' && "exe"@[2] == 'e'
            && "msi"@.len() == 3 && "msi"@[0] == 'm' && "msi"@[1] == 's' && "msi"@[2] == 'i'
            && "bin"@.len() == 3 && "bin"@[0] == 'b' && "bin"@[1] == 'i' && "bin"@[2] == 'n'
            && "appimage"@.len() == 8 && "appimage"@[0] == 'a' && "appimage"@[1] == 'p' && "appimage"@[2] == 'p' && "appimage"@[3] == 'i' && "appimage"@[4] == 'm' && "appimage"@[5] == 'a' && "appimage"@[6] == 'g' && "appimage"@[7] == 'e'
            && "run"@.len() == 3 && "run"@[0] == 'r' && "run"@[1] == 'u' && "run"@[2] == 'n'
            && "dmg"@.len() == 3 && "dmg"@[0] == 'd' && "dmg"@[1] == 'm' && "dmg"@[2] == 'g'
            && "pkg"@.len() == 3 && "pkg"@[0] == 'p' && "pkg"@[1] == 'k' && "pkg"@[2] == 'g'
    );
}

/// Every library extension of the table gets its icon.
proof fn lemma_icons_library()
    ensures
        icon_for_extension("so"@) == "application-x-sharedlib-symbolic"@,
        icon_for_extension("dll"@) == "application-x-sharedlib-symbolic"@,
        icon_for_extension("dylib"@) == "application-x-sharedlib-symbolic"@,
{
    reveal_strlit("jpg");
    reveal_strlit("jpeg");
    reveal_strlit("png");
    reveal_strlit("gif");
    reveal_strlit("svg");
    reveal_strlit("webp");
    reveal_strlit("bmp");
    reveal_strlit("ico");
    reveal_strlit("tiff");
    reveal_strlit("tif");
    reveal_strlit("heic");
    reveal_strlit("heif");
    reveal_strlit("avif");
    reveal_strlit("raw");
    reveal_strlit("cr2");
    reveal_strlit("nef");
    reveal_strlit("psd");
    reveal_strlit("xcf");
    reveal_strlit("mp3");
    reveal_strlit("flac");
    reveal_strlit("ogg");
    reveal_strlit("oga");
    reveal_strlit("wav");
    reveal_strlit("aac");
    reveal_strlit("wma");
    reveal_strlit("m4a");
    reveal_strlit("opus");
    reveal_strlit("aiff");
    reveal_strlit("mid");
    reveal_strlit("midi");
    reveal_strlit("ac3");
    reveal_strlit("mp4");
    reveal_strlit("mkv");
    reveal_strlit("avi");
    reveal_strlit("webm");
    reveal_strlit("mov");
    reveal_strlit("wmv");
    reveal_strlit("flv");
    reveal_strlit("m4v");
    reveal_strlit("mpg");
    reveal_strlit("mpeg");
    reveal_strlit("3gp");
    reveal_strlit("ogv");
    reveal_strlit("pdf");
    reveal_strlit("doc");
    reveal_strlit("docx");
    reveal_strlit("odt");
    reveal_strlit("rtf");
    reveal_strlit("epub");
    reveal_strlit("djvu");
    reveal_strlit("pages");
    reveal_strlit("md");
    reveal_strlit("markdown");
    reveal_strlit("rst");
    reveal_strlit("adoc");
    reveal_strlit("tex");
    reveal_strlit("latex");
    reveal_strlit("xls");
    reveal_strlit("xlsx");
    reveal_strlit("ods");
    reveal_strlit("csv");
    reveal_strlit("tsv");
    reveal_strlit("numbers");
    reveal_strlit("ppt");
    reveal_strlit("pptx");
    reveal_strlit("odp");
    reveal_strlit("key");
    reveal_strlit("odg");
    reveal_strlit("vsd");
    reveal_strlit("vsdx");
    reveal_strlit("dia");
    reveal_strlit("zip");
    reveal_strlit("tar");
    reveal_strlit("gz");
    reveal_strlit("bz2");
    reveal_strlit("xz");
    reveal_strlit("zst");
    reveal_strlit("lz4");
    reveal_strlit("lzma");
    reveal_strlit("7z");
    reveal_strlit("rar");
    reveal_strlit("deb");
    reveal_strlit("rpm");
    reveal_strlit("flatpak");
    reveal_strlit("snap");
    reveal_strlit("cab");
    reveal_strlit("cpio");
    reveal_strlit("ar");
    reveal_strlit("tgz");
    reveal_strlit("tbz2");
    reveal_strlit("txz");
    reveal_strlit("ttf");
    reveal_strlit("otf");
    reveal_strlit("woff");
    reveal_strlit("woff2");
    reveal_strlit("eot");
    reveal_strlit("exe");
    reveal_strlit("msi");
    reveal_strlit("bin");
    reveal_strlit("appimage");
    reveal_strlit("run");
    reveal_strlit("dmg");
    reveal_strlit("pkg");
    reveal_strlit("so");
    reveal_strlit("dll");
    reveal_strlit("dylib");
    assert(
        "jpg"@.len() == 3 && "jpg"@[0] == 'j' && "jpg"@[1] == 'p' && "jpg"@[2] == 'g'
            && "jpeg"@.len() == 4 && "jpeg"@[0] == 'j' && "jpeg"@[1] == 'p' && "jpeg"@[2] == 'e' && "jpeg"@[3] == 'g'
            && "png"@.len() == 3 && "png"@[0] == 'p' && "png"@[1] == 'n' && "png"@[2] == 'g'
            && "gif"@.len() == 3 && "gif"@[0] == 'g' && "gif"@[1] == 'i' && "gif"@[2] == 'f'
            && "svg"@.len() == 3 && "svg"@[0] == 's' && "svg"@[1] == 'v' && "svg"@[2] == 'g'
            && "webp"@.len() == 4 && "webp"@[0] == 'w' && "webp"@[1] == 'e' && "webp"@[2] == 'b' && "webp"@[3] == 'p'
            && "bmp"@.len() == 3 && "bmp"@[0] == 'b' && "bmp"@[1] == 'm' && "bmp"@[2] == 'p'
            && "ico"@.len() == 3 && "ico"@[0] == 'i' && "ico"@[1] == 'c' && "ico"@[2] == 'o'
            && "tiff"@.len() == 4 && "tiff"@[0] == 't' && "tiff"@[1] == 'i' && "tiff"@[2] == 'f' && "tiff"@[3] == 'f'
            && "tif"@.len() == 3 && "tif"@[0] == 't' && "tif"@[1] == 'i' && "tif"@[2] == 'f'
            && "heic"@.len() == 4 && "heic"@[0] == 'h' && "heic"@[1] == 'e' && "heic"@[2] == 'i' && "heic"@[3] == 'c'
            && "heif"@.len() == 4 && "heif"@[0] == 'h' && "heif"@[1] == 'e' && "heif"@[2] == 'i' && "heif"@[3] == 'f'
            && "avif"@.len() == 4 && "avif"@[0] == 'a' && "avif"@[1] == 'v' && "avif"@[2] == 'i' && "avif"@[3] == 'f'
            && "raw"@.len() == 3 && "raw"@[0] == 'r' && "raw"@[1] == 'a' && "raw"@[2] == 'w'
            && "cr2"@.len() == 3 && "cr2"@[0] == 'c' && "cr2"@[1] == 'r' && "cr2"@[2] == '2'
            && "nef"@.len() == 3 && "nef"@[0] == 'n' && "nef"@[1] == 'e' && "nef"@[2] == 'f'
            && "psd"@.len() == 3 && "psd"@[0] == 'p' && "psd"@[1] == 's' && "psd"@[2] == 'd'
            && "xcf"@.len() == 3 && "xcf"@[0] == 'x' && "xcf"@[1] == 'c' && "xcf"@[2] == 'f'
            && "mp3"@.len() == 3 && "mp3"@[0] == 'm' && "mp3"@[1] == 'p' && "mp3"@[2] == '3'
            && "flac"@.len() == 4 && "flac"@[0] == 'f' && "flac"@[1] == 'l' && "flac"@[2] == 'a' && "flac"@[3] == 'c'
            && "ogg"@.len() == 3 && "ogg"@[0] == 'o' && "ogg"@[1] == 'g' && "ogg"@[2] == 'g'
            && "oga"@.len() == 3 && "oga"@[0] == 'o' && "oga"@[1] == 'g' && "oga"@[2] == 'a'
            && "wav"@.len() == 3 && "wav"@[0] == 'w' && "wav"@[1] == 'a' && "wav"@[2] == 'v'
            && "aac"@.len() == 3 && "aac"@[0] == 'a' && "aac"@[1] == 'a' && "aac"@[2] == 'c'
            && "wma"@.len() == 3 && "wma"@[0] == 'w' && "wma"@[1] == 'm' && "wma"@[2] == 'a'
            && "m4a"@.len() == 3 && "m4a"@[0] == 'm' && "m4a"@[1] == '4' && "m4a"@[2] == 'a'
            && "opus"@.len() == 4 && "opus"@[0] == 'o' && "opus"@[1] == 'p' && "opus"@[2] == 'u' && "opus"@[3] == 's'
            && "aiff"@.len() == 4 && "aiff"@[0] == 'a' && "aiff"@[1] == 'i' && "aiff"@[2] == 'f' && "aiff"@[3] == 'f'
            && "mid"@.len() == 3 && "mid"@[0] == 'm' && "mid"@[1] == 'i' && "mid"@[2] == 'd'
            && "midi"@.len() == 4 && "midi"@[0] == 'm' && "midi"@[1] == 'i' && "midi"@[2] == 'd' && "midi"@[3] == 'i'
            && "ac3"@.len() == 3 && "ac3"@[0] == 'a' && "ac3"@[1] == 'c' && "ac3"@[2] == '3'
            && "mp4"@.len() == 3 && "mp4"@[0] == 'm' && "mp4"@[1] == 'p' && "mp4"@[2] == '4'
            && "mkv"@.len() == 3 && "mkv"@[0] == 'm' && "mkv"@[1] == 'k' && "mkv"@[2] == 'v'
            && "avi"@.len() == 3 && "avi"@[0] == 'a' && "avi"@[1] == 'v' && "avi"@[2] == 'i'
            && "webm"@.len() == 4 && "webm"@[0] == 'w' && "webm"@[1] == 'e' && "webm"@[2] == 'b' && "webm"@[3] == 'm'
            && "mov"@.len() == 3 && "mov"@[0] == 'm' && "mov"@[1] == 'o' && "mov"@[2] == 'v'
            && "wmv"@.len() == 3 && "wmv"@[0] == 'w' && "wmv"@[1] == 'm' && "wmv"@[2] == 'v'
            && "flv"@.len() == 3 && "flv"@[0] == 'f' && "flv"@[1] == 'l' && "flv"@[2] == 'v'
            && "m4v"@.len() == 3 && "m4v"@[0] == 'm' && "m4v"@[1] == '4' && "m4v"@[2] == 'v'
            && "mpg"@.len() == 3 && "mpg"@[0] == 'm' && "mpg"@[1] == 'p' && "mpg"@[2] == 'g'
            && "mpeg"@.len() == 4 && "mpeg"@[0] == 'm' && "mpeg"@[1] == 'p' && "mpeg"@[2] == 'e' && "mpeg"@[3] == 'g'
            && "3gp"@.len() == 3 && "3gp"@[0] == '3' && "3gp"@[1] == 'g' && "3gp"@[2] == 'p'
            && "ogv"@.len() == 3 && "ogv"@[0] == 'o' && "ogv"@[1] == 'g' && "ogv"@[2] == 'v'
            && "pdf"@.len() == 3 && "pdf"@[0] == 'p' && "pdf"@[1] == 'd' && "pdf"@[2] == 'f'
            && "doc"@.len() == 3 && "doc"@[0] == 'd' && "doc"@[1] == 'o' && "doc"@[2] == 'c'
            && "docx"@.len() == 4 && "docx"@[0] == 'd' && "docx"@[1] == 'o' && "docx"@[2] == 'c' && "docx"@[3] == 'x'
            && "odt"@.len() == 3 && "odt"@[0] == 'o' && "odt"@[1] == 'd' && "odt"@[2] == 't'
            && "rtf"@.len() == 3 && "rtf"@[0] == 'r' && "rtf"@[1] == 't' && "rtf"@[2] == 'f'
            && "epub"@.len() == 4 && "epub"@[0] == 'e' && "epub"@[1] == 'p' && "epub"@[2] == 'u' && "epub"@[3] == 'b'
            && "djvu"@.len() == 4 && "djvu"@[0] == 'd' && "djvu"@[1] == 'j' && "djvu"@[2] == 'v' && "djvu"@[3] == 'u'
            && "pages"@.len() == 5 && "pages"@[0] == 'p' && "pages"@[1] == 'a' && "pages"@[2] == 'g' && "pages"@[3] == 'e' && "pages"@[4] == 's'
            && "md"@.len() == 2 && "md"@[0] == 'm' && "md"@[1] == 'd'
            && "markdown"@.len() == 8 && "markdown"@[0] == 'm' && "markdown"@[1] == 'a' && "markdown"@[2] == 'r' && "markdown"@[3] == 'k' && "markdown"@[4] == 'd' && "markdown"@[5] == 'o' && "markdown"@[6] == 'w' && "markdown"@[7] == 'n'
            && "rst"@.len() == 3 && "rst"@[0] == 'r' && "rst"@[1] == 's' && "rst"@[2] == 't'
            && "adoc"@.len() == 4 && "adoc"@[0] == 'a' && "adoc"@[1] == 'd' && "adoc"@[2] == 'o' && "adoc"@[3] == 'c'
            && "tex"@.len() == 3 && "tex"@[0] == 't' && "tex"@[1] == 'e' && "tex"@[2] == 'x'
            && "latex"@.len() == 5 && "latex"@[0] == 'l' && "latex"@[1] == 'a' && "latex"@[2] == 't' && "latex"@[3] == 'e' && "latex"@[4] == 'x'
            && "xls"@.len() == 3 && "xls"@[0] == 'x' && "xls"@[1] == 'l' && "xls"@[2] == 's'
            && "xlsx"@.len() == 4 && "xlsx"@[0] == 'x' && "xlsx"@[1] == 'l' && "xlsx"@[2] == 's' && "xlsx"@[3] == 'x'
            && "ods"@.len() == 3 && "ods"@[0] == 'o' && "ods"@[1] == 'd' && "ods"@[2] == 's'
            && "csv"@.len() == 3 && "csv"@[0] == 'c' && "csv"@[1] == 's' && "csv"@[2] == 'v'
            && "tsv"@.len() == 3 && "tsv"@[0] == 't' && "tsv"@[1] == 's' && "tsv"@[2] == 'v'
            && "numbers"@.len() == 7 && "numbers"@[0] == 'n' && "numbers"@[1] == 'u' && "numbers"@[2] == 'm' && "numbers"@[3] == 'b' && "numbers"@[4] == 'e' && "numbers"@[5] == 'r' && "numbers"@[6] == 's'
            && "ppt"@.len() == 3 && "ppt"@[0] == 'p' && "ppt"@[1] == 'p' && "ppt"@[2] == 't'
            && "pptx"@.len() == 4 && "pptx"@[0] == 'p' && "pptx"@[1] == 'p' && "pptx"@[2] == 't' && "pptx"@[3] == 'x'
            && "odp"@.len() == 3 && "odp"@[0] == 'o' && "odp"@[1] == 'd' && "odp"@[2] == 'p'
            && "key"@.len() == 3 && "key"@[0] == 'k' && "key"@[1] == 'e' && "key"@[2] == 'y'
            && "odg"@.len() == 3 && "odg"@[0] == 'o' && "odg"@[1] == 'd' && "odg"@[2] == 'g'
            && "vsd"@.len() == 3 && "vsd"@[0] == 'v' && "vsd"@[1] == 's' && "vsd"@[2] == 'd'
            && "vsdx"@.len() == 4 && "vsdx"@[0] == 'v' && "vsdx"@[1] == 's' && "vsdx"@[2] == 'd' && "vsdx"@[3] == 'x'
            && "dia"@.len() == 3 && "dia"@[0] == 'd' && "dia"@[1] == 'i' && "dia"@[2] == 'a'
            && "zip"@.len() == 3 && "zip"@[0] == 'z' && "zip"@[1] == 'i' && "zip"@[2] == 'p'
            && "tar"@.len() == 3 && "tar"@[0] == 't' && "tar"@[1] == 'a' && "tar"@[2] == 'r'
            && "gz"@.len() == 2 && "gz"@[0] == 'g' && "gz"@[1] == 'z'
            && "bz2"@.len() == 3 && "bz2"@[0] == 'b' && "bz2"@[1] == 'z' && "bz2"@[2] == '2'
            && "xz"@.len() == 2 && "xz"@[0] == 'x' && "xz"@[1] == 'z'
            && "zst"@.len() == 3 && "zst"@[0] == 'z' && "zst"@[1] == 's' && "zst"@[2] == 't'
            && "lz4"@.len() == 3 && "lz4"@[0] == 'l' && "lz4"@[1] == 'z' && "lz4"@[2] == '4'
            && "lzma"@.len() == 4 && "lzma"@[0] == 'l' && "lzma"@[1] == 'z' && "lzma"@[2] == 'm' && "lzma"@[3] == 'a'
            && "7z"@.len() == 2 && "7z"@[0] == '7' && "7z"@[1] == 'z'
            && "rar"@.len() == 3 && "rar"@[0] == 'r' && "rar"@[1] == 'a' && "rar"@[2] == 'r'
            && "deb"@.len() == 3 && "deb"@[0] == 'd' && "deb"@[1] == 'e' && "deb"@[2] == 'b'
            && "rpm"@.len() == 3 && "rpm"@[0] == 'r' && "rpm"@[1] == 'p' && "rpm"@[2] == 'm'
            && "flatpak"@.len() == 7 && "flatpak"@[0] == 'f' && "flatpak"@[1] == 'l' && "flatpak"@[2] == 'a' && "flatpak"@[3] == 't' && "flatpak"@[4] == 'p' && "flatpak"@[5] == 'a' && "flatpak"@[6] == 'k'
            && "snap"@.len() == 4 && "snap"@[0] == 's' && "snap"@[1] == 'n' && "snap"@[2] == 'a' && "snap"@[3] == 'p'
            && "cab"@.len() == 3 && "cab"@[0] == 'c' && "cab"@[1] == 'a' && "cab"@[2] == 'b'
            && "cpio"@.len() == 4 && "cpio"@[0] == 'c' && "cpio"@[1] == 'p' && "cpio"@[2] == 'i' && "cpio"@[3] == 'o'
            && "ar"@.len() == 2 && "ar"@[0] == 'a' && "ar"@[1] == 'r'
            && "tgz"@.len() == 3 && "tgz"@[0] == 't' && "tgz"@[1] == 'g' && "tgz"@[2] == 'z'
            && "tbz2"@.len() == 4 && "tbz2"@[0] == 't' && "tbz2"@[1] == 'b' && "tbz2"@[2] == 'z' && "tbz2"@[3] == '2'
            && "txz"@.len() == 3 && "txz"@[0] == 't' && "txz"@[1] == 'x' && "txz"@[2] == 'z'
            && "ttf"@.len() == 3 && "ttf"@[0] == 't' && "ttf"@[1] == 't' && "ttf"@[2] == 'f'
            && "otf"@.len() == 3 && "otf"@[0] == 'o' && "otf"@[1] == 't' && "otf"@[2] == 'f'
            && "woff"@.len() == 4 && "woff"@[0] == 'w' && "woff"@[1] == 'o' && "woff"@[2] == 'f' && "woff"@[3] == 'f'
            && "woff2"@.len() == 5 && "woff2"@[0] == 'w' && "woff2"@[1] == 'o' && "woff2"@[2] == 'f' && "woff2"@[3] == 'f' && "woff2"@[4] == '2'
            && "eot"@.len() == 3 && "eot"@[0] == 'e' && "eot"@[1] == 'o' && "eot"@[2] == 't'
            && "exe"@.len() == 3 && "exe"@[0] == 'e' && "exe"@[1] == 'x' && "exe"@[2] == 'e'
            && "msi"@.len() == 3 && "msi"@[0] == 'm' && "msi"@[1] == 's' && "msi"@[2] == 'i'
            && "bin"@.len() == 3 && "bin"@[0] == 'b' && "bin"@[1] == 'i' && "bin"@[2] == 'n'
            && "appimage"@.len() == 8 && "appimage"@[0] == 'a' && "appimage"@[1] == 'p' && "appimage"@[2] == 'p' && "appimage"@[3] == 'i' && "appimage"@[4] == 'm' && "appimage"@[5] == 'a' && "appimage"@[6] == 'g' && "appimage"@[7] == 'e'
            && "run"@.len() == 3 && "run"@[0] == 'r' && "run"@[1] == 'u' && "run"@[2] == 'n'
            && "dmg"@.len() == 3 && "dmg"@[0] == 'd' && "dmg"@[1] == 'm' && "dmg"@[2] == 'g'
            && "pkg"@.len() == 3 && "pkg"@[0] == 'p' && "pkg"@[1] == 'k' && "pkg"@[2] == 'g'
            && "so"@.len() == 2 && "so"@[0] == 's' && "so"@[1] == 'o'
            && "dll"@.len() == 3 && "dll"@[0] == 'd' && "dll"@[1] == 'l' && "dll"@[2] == 'l'
            && "dylib"@.len() == 5 && "dylib"@[0] == 'd' && "dylib"@[1] == 'y' && "dylib"@[2] == 'l' && "dylib"@[3] == 'i' && "dylib"@[4] == 'b'
    );
}

/// Every disk image extension of the table gets its icon.
proof fn lemma_icons_disk_image()
    ensures
        icon_for_extension("iso"@) == "media-optical-symbolic"@,
        icon_for_extension("img"@) == "media-optical-symbolic"@,
{
    reveal_strlit("jpg");
    reveal_strlit("jpeg");
    reveal_strlit("png");
    reveal_strlit("gif");
    reveal_strlit("svg");
    reveal_strlit("webp");
    reveal_strlit("bmp");
    reveal_strlit("ico");
    reveal_strlit("tiff");
    reveal_strlit("tif");
    reveal_strlit("heic");
    reveal_strlit("heif");
    reveal_strlit("avif");
    reveal_strlit("raw");
    reveal_strlit("cr2");
    reveal_strlit("nef");
    reveal_strlit("psd");
    reveal_strlit("xcf");
    reveal_strlit("mp3");
    reveal_strlit("flac");
    reveal_strlit("ogg");
    reveal_strlit("oga");
    reveal_strlit("wav");
    reveal_strlit("aac");
    reveal_strlit("wma");
    reveal_strlit("m4a");
    reveal_strlit("opus");
    reveal_strlit("aiff");
    reveal_strlit("mid");
    reveal_strlit("midi");
    reveal_strlit("ac3");
    reveal_strlit("mp4");
    reveal_strlit("mkv");
    reveal_strlit("avi");
    reveal_strlit("webm");
    reveal_strlit("mov");
    reveal_strlit("wmv");
    reveal_strlit("flv");
    reveal_strlit("m4v");
    reveal_strlit("mpg");
    reveal_strlit("mpeg");
    reveal_strlit("3gp");
    reveal_strlit("ogv");
    reveal_strlit("pdf");
    reveal_strlit("doc");
    reveal_strlit("docx");
    reveal_strlit("odt");
    reveal_strlit("rtf");
    reveal_strlit("epub");
    reveal_strlit("djvu");
    reveal_strlit("pages");
    reveal_strlit("md");
    reveal_strlit("markdown");
    reveal_strlit("rst");
    reveal_strlit("adoc");
    reveal_strlit("tex");
    reveal_strlit("latex");
    reveal_strlit("xls");
    reveal_strlit("xlsx");
    reveal_strlit("ods");
    reveal_strlit("csv");
    reveal_strlit("tsv");
    reveal_strlit("numbers");
    reveal_strlit("ppt");
    reveal_strlit("pptx");
    reveal_strlit("odp");
    reveal_strlit("key");
    reveal_strlit("odg");
    reveal_strlit("vsd");
    reveal_strlit("vsdx");
    reveal_strlit("dia");
    reveal_strlit("zip");
    reveal_strlit("tar");
    reveal_strlit("gz");
    reveal_strlit("bz2");
    reveal_strlit("xz");
    reveal_strlit("zst");
    reveal_strlit("lz4");
    reveal_strlit("lzma");
    reveal_strlit("7z");
    reveal_strlit("rar");
    reveal_strlit("deb");
    reveal_strlit("rpm");
    reveal_strlit("flatpak");
    reveal_strlit("snap");
    reveal_strlit("cab");
    reveal_strlit("cpio");
    reveal_strlit("ar");
    reveal_strlit("tgz");
    reveal_strlit("tbz2");
    reveal_strlit("txz");
    reveal_strlit("ttf");
    reveal_strlit("otf");
    reveal_strlit("woff");
    reveal_strlit("woff2");
    reveal_strlit("eot");
    reveal_strlit("exe");
    reveal_strlit("msi");
    reveal_strlit("bin");
    reveal_strlit("appimage");
    reveal_strlit("run");
    reveal_strlit("dmg");
    reveal_strlit("pkg");
    reveal_strlit("so");
    reveal_strlit("dll");
    reveal_strlit("dylib");
    reveal_strlit("iso");
    reveal_strlit("img");
    assert(
        "jpg"@.len() == 3 && "jpg"@[0] == 'j' && "jpg"@[1] == 'p' && "jpg"@[2] == 'g'
            && "jpeg"@.len() == 4 && "jpeg"@[0] == 'j' && "jpeg"@[1] == 'p' && "jpeg"@[2] == 'e' && "jpeg"@[3] == 'g'
            && "png"@.len() == 3 && "png"@[0] == 'p' && "png"@[1] == 'n' && "png"@[2] == 'g'
            && "gif"@.len() == 3 && "gif"@[0] == 'g' && "gif"@[1] == 'i' && "gif"@[2] == 'f'
            && "svg"@.len() == 3 && "svg"@[0] == 's' && "svg"@[1] == 'v' && "svg"@[2] == 'g'
            && "webp"@.len() == 4 && "webp"@[0] == 'w' && "webp"@[1] == 'e' && "webp"@[2] == 'b' && "webp"@[3] == 'p'
            && "bmp"@.len() == 3 && "bmp"@[0] == 'b' && "bmp"@[1] == 'm' && "bmp"@[2] == 'p'
            && "ico"@.len() == 3 && "ico"@[0] == 'i' && "ico"@[1] == 'c' && "ico"@[2] == 'o'
            && "tiff"@.len() == 4 && "tiff"@[0] == 't' && "tiff"@[1] == 'i' && "tiff"@[2] == 'f' && "tiff"@[3] == 'f'
            && "tif"@.len() == 3 && "tif"@[0] == 't' && "tif"@[1] == 'i' && "tif"@[2] == 'f'
            && "heic"@.len() == 4 && "heic"@[0] == 'h' && "heic"@[1] == 'e' && "heic"@[2] == 'i' && "heic"@[3] == 'c'
            && "heif"@.len() == 4 && "heif"@[0] == 'h' && "heif"@[1] == 'e' && "heif"@[2] == 'i' && "heif"@[3] == 'f'
            && "avif"@.len() == 4 && "avif"@[0] == 'a' && "avif"@[1] == 'v' && "avif"@[2] == 'i' && "avif"@[3] == 'f'
            && "raw"@.len() == 3 && "raw"@[0] == 'r' && "raw"@[1] == 'a' && "raw"@[2] == 'w'
            && "cr2"@.len() == 3 && "cr2"@[0] == 'c' && "cr2"@[1] == 'r' && "cr2"@[2] == '2'
            && "nef"@.len() == 3 && "nef"@[0] == 'n' && "nef"@[1] == 'e' && "nef"@[2] == 'f'
            && "psd"@.len() == 3 && "psd"@[0] == 'p' && "psd"@[1] == 's' && "psd"@[2] == 'd'
            && "xcf"@.len() == 3 && "xcf"@[0] == 'x' && "xcf"@[1] == 'c' && "xcf"@[2] == 'f'
            && "mp3"@.len() == 3 && "mp3"@[0] == 'm' && "mp3"@[1] == 'p' && "mp3"@[2] == '3'
            && "flac"@.len() == 4 && "flac"@[0] == 'f' && "flac"@[1] == 'l' && "flac"@[2] == 'a' && "flac"@[3] == 'c'
            && "ogg"@.len() == 3 && "ogg"@[0] == 'o' && "ogg"@[1] == 'g' && "ogg"@[2] == 'g'
            && "oga"@.len() == 3 && "oga"@[0] == 'o' && "oga"@[1] == 'g' && "oga"@[2] == 'a'
            && "wav"@.len() == 3 && "wav"@[0] == 'w' && "wav"@[1] == 'a' && "wav"@[2] == 'v'
            && "aac"@.len() == 3 && "aac"@[0] == 'a' && "aac"@[1] == 'a' && "aac"@[2] == 'c'
            && "wma"@.len() == 3 && "wma"@[0] == 'w' && "wma"@[1] == 'm' && "wma"@[2] == 'a'
            && "m4a"@.len() == 3 && "m4a"@[0] == 'm' && "m4a"@[1] == '4' && "m4a"@[2] == 'a'
            && "opus"@.len() == 4 && "opus"@[0] == 'o' && "opus"@[1] == 'p' && "opus"@[2] == 'u' && "opus"@[3] == 's'
            && "aiff"@.len() == 4 && "aiff"@[0] == 'a' && "aiff"@[1] == 'i' && "aiff"@[2] == 'f' && "aiff"@[3] == 'f'
            && "mid"@.len() == 3 && "mid"@[0] == 'm' && "mid"@[1] == 'i' && "mid"@[2] == 'd'
            && "midi"@.len() == 4 && "midi"@[0] == 'm' && "midi"@[1] == 'i' && "midi"@[2] == 'd' && "midi"@[3] == 'i'
            && "ac3"@.len() == 3 && "ac3"@[0] == 'a' && "ac3"@[1] == 'c' && "ac3"@[2] == '3'
            && "mp4"@.len() == 3 && "mp4"@[0] == 'm' && "mp4"@[1] == 'p' && "mp4"@[2] == '4'
            && "mkv"@.len() == 3 && "mkv"@[0] == 'm' && "mkv"@[1] == 'k' && "mkv"@[2] == 'v'
            && "avi"@.len() == 3 && "avi"@[0] == 'a' && "avi"@[1] == 'v' && "avi"@[2] == 'i'
            && "webm"@.len() == 4 && "webm"@[0] == 'w' && "webm"@[1] == 'e' && "webm"@[2] == 'b' && "webm"@[3] == 'm'
            && "mov"@.len() == 3 && "mov"@[0] == 'm' && "mov"@[1] == 'o' && "mov"@[2] == 'v'
            && "wmv"@.len() == 3 && "wmv"@[0] == 'w' && "wmv"@[1] == 'm' && "wmv"@[2] == 'v'
            && "flv"@.len() == 3 && "flv"@[0] == 'f' && "flv"@[1] == 'l' && "flv"@[2] == 'v'
            && "m4v"@.len() == 3 && "m4v"@[0] == 'm' && "m4v"@[1] == '4' && "m4v"@[2] == 'v'
            && "mpg"@.len() == 3 && "mpg"@[0] == 'm' && "mpg"@[1] == 'p' && "mpg"@[2] == 'g'
            && "mpeg"@.len() == 4 && "mpeg"@[0] == 'm' && "mpeg"@[1] == 'p' && "mpeg"@[2] == 'e' && "mpeg"@[3] == 'g'
            && "3gp"@.len() == 3 && "3gp"@[0] == '3' && "3gp"@[1] == 'g' && "3gp"@[2] == 'p'
            && "ogv"@.len() == 3 && "ogv"@[0] == 'o' && "ogv"@[1] == 'g' && "ogv"@[2] == 'v'
            && "pdf"@.len() == 3 && "pdf"@[0] == 'p' && "pdf"@[1] == 'd' && "pdf"@[2] == 'f'
            && "doc"@.len() == 3 && "doc"@[0] == 'd' && "doc"@[1] == 'o' && "doc"@[2] == 'c'
            && "docx"@.len() == 4 && "docx"@[0] == 'd' && "docx"@[1] == 'o' && "docx"@[2] == 'c' && "docx"@[3] == 'x'
            && "odt"@.len() == 3 && "odt"@[0] == 'o' && "odt"@[1] == 'd' && "odt"@[2] == 't'
            && "rtf"@.len() == 3 && "rtf"@[0] == 'r' && "rtf"@[1] == 't' && "rtf"@[2] == 'f'
            && "epub"@.len() == 4 && "epub"@[0] == 'e' && "epub"@[1] == 'p' && "epub"@[2] == 'u' && "epub"@[3] == 'b'
            && "djvu"@.len() == 4 && "djvu"@[0] == 'd' && "djvu"@[1] == 'j' && "djvu"@[2] == 'v' && "djvu"@[3] == 'u'
            && "pages"@.len() == 5 && "pages"@[0] == 'p' && "pages"@[1] == 'a' && "pages"@[2] == 'g' && "pages"@[3] == 'e' && "pages"@[4] == 's'
            && "md"@.len() == 2 && "md"@[0] == 'm' && "md"@[1] == 'd'
            && "markdown"@.len() == 8 && "markdown"@[0] == 'm' && "markdown"@[1] == 'a' && "markdown"@[2] == 'r' && "markdown"@[3] == 'k' && "markdown"@[4] == 'd' && "markdown"@[5] == 'o' && "markdown"@[6] == 'w' && "markdown"@[7] == 'n'
            && "rst"@.len() == 3 && "rst"@[0] == 'r' && "rst"@[1] == 's' && "rst"@[2] == 't'
            && "adoc"@.len() == 4 && "adoc"@[0] == 'a' && "adoc"@[1] == 'd' && "adoc"@[2] == 'o' && "adoc"@[3] == 'c'
            && "tex"@.len() == 3 && "tex"@[0] == 't' && "tex"@[1] == 'e' && "tex"@[2] == 'x'
            && "latex"@.len() == 5 && "latex"@[0] == 'l' && "latex"@[1] == 'a' && "latex"@[2] == 't' && "latex"@[3] == 'e' && "latex"@[4] == 'x'
            && "xls"@.len() == 3 && "xls"@[0] == 'x' && "xls"@[1] == 'l' && "xls"@[2] == 's'
            && "xlsx"@.len() == 4 && "xlsx"@[0] == 'x' && "xlsx"@[1] == 'l' && "xlsx"@[2] == 's' && "xlsx"@[3] == 'x'
            && "ods"@.len() == 3 && "ods"@[0] == 'o' && "ods"@[1] == 'd' && "ods"@[2] == 's'
            && "csv"@.len() == 3 && "csv"@[0] == 'c' && "csv"@[1] == 's' && "csv"@[2] == 'v'
            && "tsv"@.len() == 3 && "tsv"@[0] == 't' && "tsv"@[1] == 's' && "tsv"@[2] == 'v'
            && "numbers"@.len() == 7 && "numbers"@[0] == 'n' && "numbers"@[1] == 'u' && "numbers"@[2] == 'm' && "numbers"@[3] == 'b' && "numbers"@[4] == 'e' && "numbers"@[5] == 'r' && "numbers"@[6] == 's'
            && "ppt"@.len() == 3 && "ppt"@[0] == 'p' && "ppt"@[1] == 'p' && "ppt"@[2] == 't'
            && "pptx"@.len() == 4 && "pptx"@[0] == 'p' && "pptx"@[1] == 'p' && "pptx"@[2] == 't' && "pptx"@[3] == 'x'
            && "odp"@.len() == 3 && "odp"@[0] == 'o' && "odp"@[1] == 'd' && "odp"@[2] == 'p'
            && "key"@.len() == 3 && "key"@[0] == 'k' && "key"@[1] == 'e' && "key"@[2] == 'y'
            && "odg"@.len() == 3 && "odg"@[0] == 'o' && "odg"@[1] == 'd' && "odg"@[2] == 'g'
            && "vsd"@.len() == 3 && "vsd"@[0] == 'v' && "vsd"@[1] == 's' && "vsd"@[2] == 'd'
            && "vsdx"@.len() == 4 && "vsdx"@[0] == 'v' && "vsdx"@[1] == 's' && "vsdx"@[2] == 'd' && "vsdx"@[3] == 'x'
            && "dia"@.len() == 3 && "dia"@[0] == 'd' && "dia"@[1] == 'i' && "dia"@[2] == 'a'
            && "zip"@.len() == 3 && "zip"@[0] == 'z' && "zip"@[1] == 'i' && "zip"@[2] == 'p'
            && "tar"@.len() == 3 && "tar"@[0] == 't' && "tar"@[1] == 'a' && "tar"@[2] == 'r'
            && "gz"@.len() == 2 && "gz"@[0] == 'g' && "gz"@[1] == 'z'
            && "bz2"@.len() == 3 && "bz2"@[0] == 'b' && "bz2"@[1] == 'z' && "bz2"@[2] == '2'
            && "xz"@.len() == 2 && "xz"@[0] == 'x' && "xz"@[1] == 'z'
            && "zst"@.len() == 3 && "zst"@[0] == 'z' && "zst"@[1] == 's' && "zst"@[2] == 't'
            && "lz4"@.len() == 3 && "lz4"@[0] == 'l' && "lz4"@[1] == 'z' && "lz4"@[2] == '4'
            && "lzma"@.len() == 4 && "lzma"@[0] == 'l' && "lzma"@[1] == 'z' && "lzma"@[2] == 'm' && "lzma"@[3] == 'a'
            && "7z"@.len() == 2 && "7z"@[0] == '7' && "7z"@[1] == 'z'
            && "rar"@.len() == 3 && "rar"@[0] == 'r' && "rar"@[1] == 'a' && "rar"@[2] == 'r'
            && "deb"@.len() == 3 && "deb"@[0] == 'd' && "deb"@[1] == 'e' && "deb"@[2] == 'b'
            && "rpm"@.len() == 3 && "rpm"@[0] == 'r' && "rpm"@[1] == 'p' && "rpm"@[2] == 'm'
            && "flatpak"@.len() == 7 && "flatpak"@[0] == 'f' && "flatpak"@[1] == 'l' && "flatpak"@[2] == 'a' && "flatpak"@[3] == 't' && "flatpak"@[4] == 'p' && "flatpak"@[5] == 'a' && "flatpak"@[6] == 'k'
            && "snap"@.len() == 4 && "snap"@[0] == 's' && "snap"@[1] == 'n' && "snap"@[2] == 'a' && "snap"@[3] == 'p'
            && "cab"@.len() == 3 && "cab"@[0] == 'c' && "cab"@[1] == 'a' && "cab"@[2] == 'b'
            && "cpio"@.len() == 4 && "cpio"@[0] == 'c' && "cpio"@[1] == 'p' && "cpio"@[2] == 'i' && "cpio"@[3] == 'o'
            && "ar"@.len() == 2 && "ar"@[0] == 'a' && "ar"@[1] == 'r'
            && "tgz"@.len() == 3 && "tgz"@[0] == 't' && "tgz"@[1] == 'g' && "tgz"@[2] == 'z'
            && "tbz2"@.len() == 4 && "tbz2"@[0] == 't' && "tbz2"@[1] == 'b' && "tbz2"@[2] == 'z' && "tbz2"@[3] == '2'
            && "txz"@.len() == 3 && "txz"@[0] == 't' && "txz"@[1] == 'x' && "txz"@[2] == 'z'
            && "ttf"@.len() == 3 && "ttf"@[0] == 't' && "ttf"@[1] == 't' && "ttf"@[2] == 'f'
            && "otf"@.len() == 3 && "otf"@[0] == 'o' && "otf"@[1] == 't' && "otf"@[2] == 'f'
            && "woff"@.len() == 4 && "woff"@[0] == 'w' && "woff"@[1] == 'o' && "woff"@[2] == 'f' && "woff"@[3] == 'f'
            && "woff2"@.len() == 5 && "woff2"@[0] == 'w' && "woff2"@[1] == 'o' && "woff2"@[2] == 'f' && "woff2"@[3] == 'f' && "woff2"@[4] == '2'
            && "eot"@.len() == 3 && "eot"@[0] == 'e' && "eot"@[1] == 'o' && "eot"@[2] == 't'
            && "exe"@.len() == 3 && "exe"@[0] == 'e' && "exe"@[1] == 'x' && "exe"@[2] == 'e'
            && "msi"@.len() == 3 && "msi"@[0] == 'm' && "msi"@[1] == 's' && "msi"@[2] == 'i'
            && "bin"@.len() == 3 && "bin"@[0] == 'b' && "bin"@[1] == 'i' && "bin"@[2] == 'n'
            && "appimage"@.len() == 8 && "appimage"@[0] == 'a' && "appimage"@[1] == 'p' && "appimage"@[2] == 'p' && "appimage"@[3] == 'i' && "appimage"@[4] == 'm' && "appimage"@[5] == 'a' && "appimage"@[6] == 'g' && "appimage"@[7] == 'e'
            && "run"@.len() == 3 && "run"@[0] == 'r' && "run"@[1] == 'u' && "run"@[2] == 'n'
            && "dmg"@.len() == 3 && "dmg"@[0] == 'd' && "dmg"@[1] == 'm' && "dmg"@[2] == 'g'
            && "pkg"@.len() == 3 && "pkg"@[0] == 'p' && "pkg"@[1] == 'k' && "pkg"@[2] == 'g'
            && "so"@.len() == 2 && "so"@[0] == 's' && "so"@[1] == 'o'
            && "dll"@.len() == 3 && "dll"@[0] == 'd' && "dll"@[1] == 'l' && "dll"@[2] == 'l'
            && "dylib"@.len() == 5 && "dylib"@[0] == 'd' && "dylib"@[1] == 'y' && "dylib"@[2] == 'l' && "dylib"@[3] == 'i' && "dylib"@[4] == 'b'
            && "iso"@.len() == 3 && "iso"@[0] == 'i' && "iso"@[1] == 's' && "iso"@[2] == 'o'
            && "img"@.len() == 3 && "img"@[0] == 'i' && "img"@[1] == 'm' && "img"@[2] == 'g'
    );
}

/// Every certificate extension of the table gets its icon.
proof fn lemma_icons_certificate()
    ensures
        icon_for_extension("pem"@) == "application-certificate-symbolic"@,
        icon_for_extension("crt"@) == "application-certificate-symbolic"@,
        icon_for_extension("cer"@) == "application-certificate-symbolic"@,
        icon_for_extension("p12"@) == "application-certificate-symbolic"@,
        icon_for_extension("pfx"@) == "application-certificate-symbolic"@,
{
    reveal_strlit("jpg");
    reveal_strlit("jpeg");
    reveal_strlit("png");
    reveal_strlit("gif");
    reveal_strlit("svg");
    reveal_strlit("webp");
    reveal_strlit("bmp");
    reveal_strlit("ico");
    reveal_strlit("tiff");
    reveal_strlit("tif");
    reveal_strlit("heic");
    reveal_strlit("heif");
    reveal_strlit("avif");
    reveal_strlit("raw");
    reveal_strlit("cr2");
    reveal_strlit("nef");
    reveal_strlit("psd");
    reveal_strlit("xcf");
    reveal_strlit("mp3");
    reveal_strlit("flac");
    reveal_strlit("ogg");
    reveal_strlit("oga");
    reveal_strlit("wav");
    reveal_strlit("aac");
    reveal_strlit("wma");
    reveal_strlit("m4a");
    reveal_strlit("opus");
    reveal_strlit("aiff");
    reveal_strlit("mid");
    reveal_strlit("midi");
    reveal_strlit("ac3");
    reveal_strlit("mp4");
    reveal_strlit("mkv");
    reveal_strlit("avi");
    reveal_strlit("webm");
    reveal_strlit("mov");
    reveal_strlit("wmv");
    reveal_strlit("flv");
    reveal_strlit("m4v");
    reveal_strlit("mpg");
    reveal_strlit("mpeg");
    reveal_strlit("3gp");
    reveal_strlit("ogv");
    reveal_strlit("pdf");
    reveal_strlit("doc");
    reveal_strlit("docx");
    reveal_strlit("odt");
    reveal_strlit("rtf");
    reveal_strlit("epub");
    reveal_strlit("djvu");
    reveal_strlit("pages");
    reveal_strlit("md");
    reveal_strlit("markdown");
    reveal_strlit("rst");
    reveal_strlit("adoc");
    reveal_strlit("tex");
    reveal_strlit("latex");
    reveal_strlit("xls");
    reveal_strlit("xlsx");
    reveal_strlit("ods");
    reveal_strlit("csv");
    reveal_strlit("tsv");
    reveal_strlit("numbers");
    reveal_strlit("ppt");
    reveal_strlit("pptx");
    reveal_strlit("odp");
    reveal_strlit("key");
    reveal_strlit("odg");
    reveal_strlit("vsd");
    reveal_strlit("vsdx");
    reveal_strlit("dia");
    reveal_strlit("zip");
    reveal_strlit("tar");
    reveal_strlit("gz");
    reveal_strlit("bz2");
    reveal_strlit("xz");
    reveal_strlit("zst");
    reveal_strlit("lz4");
    reveal_strlit("lzma");
    reveal_strlit("7z");
    reveal_strlit("rar");
    reveal_strlit("deb");
    reveal_strlit("rpm");
    reveal_strlit("flatpak");
    reveal_strlit("snap");
    reveal_strlit("cab");
    reveal_strlit("cpio");
    reveal_strlit("ar");
    reveal_strlit("tgz");
    reveal_strlit("tbz2");
    reveal_strlit("txz");
    reveal_strlit("ttf");
    reveal_strlit("otf");
    reveal_strlit("woff");
    reveal_strlit("woff2");
    reveal_strlit("eot");
    reveal_strlit("exe");
    reveal_strlit("msi");
    reveal_strlit("bin");
    reveal_strlit("appimage");
    reveal_strlit("run");
    reveal_strlit("dmg");
    reveal_strlit("pkg");
    reveal_strlit("so");
    reveal_strlit("dll");
    reveal_strlit("dylib");
    reveal_strlit("iso");
    reveal_strlit("img");
    reveal_strlit("pem");
    reveal_strlit("crt");
    reveal_strlit("cer");
    reveal_strlit("p12");
    reveal_strlit("pfx");
    assert(
        "jpg"@.len() == 3 && "jpg"@[0] == 'j' && "jpg"@[1] == 'p' && "jpg"@[2] == 'g'
            && "jpeg"@.len() == 4 && "jpeg"@[0] == 'j' && "jpeg"@[1] == 'p' && "jpeg"@[2] == 'e' && "jpeg"@[3] == 'g'
            && "png"@.len() == 3 && "png"@[0] == 'p' && "png"@[1] == 'n' && "png"@[2] == 'g'
            && "gif"@.len() == 3 && "gif"@[0] == 'g' && "gif"@[1] == 'i' && "gif"@[2] == 'f'
            && "svg"@.len() == 3 && "svg"@[0] == 's' && "svg"@[1] == 'v' && "svg"@[2] == 'g'
            && "webp"@.len() == 4 && "webp"@[0] == 'w' && "webp"@[1] == 'e' && "webp"@[2] == 'b' && "webp"@[3] == 'p'
            && "bmp"@.len() == 3 && "bmp"@[0] == 'b' && "bmp"@[1] == 'm' && "bmp"@[2] == 'p'
            && "ico"@.len() == 3 && "ico"@[0] == 'i' && "ico"@[1] == 'c' && "ico"@[2] == 'o'
            && "tiff"@.len() == 4 && "tiff"@[0] == 't' && "tiff"@[1] == 'i' && "tiff"@[2] == 'f' && "tiff"@[3] == 'f'
            && "tif"@.len() == 3 && "tif"@[0] == 't' && "tif"@[1] == 'i' && "tif"@[2] == 'f'
            && "heic"@.len() == 4 && "heic"@[0] == 'h' && "heic"@[1] == 'e' && "heic"@[2] == 'i' && "heic"@[3] == 'c'
            && "heif"@.len() == 4 && "heif"@[0] == 'h' && "heif"@[1] == 'e' && "heif"@[2] == 'i' && "heif"@[3] == 'f'
            && "avif"@.len() == 4 && "avif"@[0] == 'a' && "avif"@[1] == 'v' && "avif"@[2] == 'i' && "avif"@[3] == 'f'
            && "raw"@.len() == 3 && "raw"@[0] == 'r' && "raw"@[1] == 'a' && "raw"@[2] == 'w'
            && "cr2"@.len() == 3 && "cr2"@[0] == 'c' && "cr2"@[1] == 'r' && "cr2"@[2] == '2'
            && "nef"@.len() == 3 && "nef"@[0] == 'n' && "nef"@[1] == 'e' && "nef"@[2] == 'f'
            && "psd"@.len() == 3 && "psd"@[0] == 'p' && "psd"@[1] == 's' && "psd"@[2] == 'd'
            && "xcf"@.len() == 3 && "xcf"@[0] == 'x' && "xcf"@[1] == 'c' && "xcf"@[2] == 'f'
            && "mp3"@.len() == 3 && "mp3"@[0] == 'm' && "mp3"@[1] == 'p' && "mp3"@[2] == '3'
            && "flac"@.len() == 4 && "flac"@[0] == 'f' && "flac"@[1] == 'l' && "flac"@[2] == 'a' && "flac"@[3] == 'c'
            && "ogg"@.len() == 3 && "ogg"@[0] == 'o' && "ogg"@[1] == 'g' && "ogg"@[2] == 'g'
            && "oga"@.len() == 3 && "oga"@[0] == 'o' && "oga"@[1] == 'g' && "oga"@[2] == 'a'
            && "wav"@.len() == 3 && "wav"@[0] == 'w' && "wav"@[1] == 'a' && "wav"@[2] == 'v'
            && "aac"@.len() == 3 && "aac"@[0] == 'a' && "aac"@[1] == 'a' && "aac"@[2] == 'c'
            && "wma"@.len() == 3 && "wma"@[0] == 'w' && "wma"@[1] == 'm' && "wma"@[2] == 'a'
            && "m4a"@.len() == 3 && "m4a"@[0] == 'm' && "m4a"@[1] == '4' && "m4a"@[2] == 'a'
            && "opus"@.len() == 4 && "opus"@[0] == 'o' && "opus"@[1] == 'p' && "opus"@[2] == 'u' && "opus"@[3] == 's'
            && "aiff"@.len() == 4 && "aiff"@[0] == 'a' && "aiff"@[1] == 'i' && "aiff"@[2] == 'f' && "aiff"@[3] == 'f'
            && "mid"@.len() == 3 && "mid"@[0] == 'm' && "mid"@[1] == 'i' && "mid"@[2] == 'd'
            && "midi"@.len() == 4 && "midi"@[0] == 'm' && "midi"@[1] == 'i' && "midi"@[2] == 'd' && "midi"@[3] == 'i'
            && "ac3"@.len() == 3 && "ac3"@[0] == 'a' && "ac3"@[1] == 'c' && "ac3"@[2] == '3'
            && "mp4"@.len() == 3 && "mp4"@[0] == 'm' && "mp4"@[1] == 'p' && "mp4"@[2] == '4'
            && "mkv"@.len() == 3 && "mkv"@[0] == 'm' && "mkv"@[1] == 'k' && "mkv"@[2] == 'v'
            && "avi"@.len() == 3 && "avi"@[0] == 'a' && "avi"@[1] == 'v' && "avi"@[2] == 'i'
            && "webm"@.len() == 4 && "webm"@[0] == 'w' && "webm"@[1] == 'e' && "webm"@[2] == 'b' && "webm"@[3] == 'm'
            && "mov"@.len() == 3 && "mov"@[0] == 'm' && "mov"@[1] == 'o' && "mov"@[2] == 'v'
            && "wmv"@.len() == 3 && "wmv"@[0] == 'w' && "wmv"@[1] == 'm' && "wmv"@[2] == 'v'
            && "flv"@.len() == 3 && "flv"@[0] == 'f' && "flv"@[1] == 'l' && "flv"@[2] == 'v'
            && "m4v"@.len() == 3 && "m4v"@[0] == 'm' && "m4v"@[1] == '4' && "m4v"@[2] == 'v'
            && "mpg"@.len() == 3 && "mpg"@[0] == 'm' && "mpg"@[1] == 'p' && "mpg"@[2] == 'g'
            && "mpeg"@.len() == 4 && "mpeg"@[0] == 'm' && "mpeg"@[1] == 'p' && "mpeg"@[2] == 'e' && "mpeg"@[3] == 'g'
            && "3gp"@.len() == 3 && "3gp"@[0] == '3' && "3gp"@[1] == 'g' && "3gp"@[2] == 'p'
            && "ogv"@.len() == 3 && "ogv"@[0] == 'o' && "ogv"@[1] == 'g' && "ogv"@[2] == 'v'
            && "pdf"@.len() == 3 && "pdf"@[0] == 'p' && "pdf"@[1] == 'd' && "pdf"@[2] == 'f'
            && "doc"@.len() == 3 && "doc"@[0] == 'd' && "doc"@[1] == 'o' && "doc"@[2] == 'c'
            && "docx"@.len() == 4 && "docx"@[0] == 'd' && "docx"@[1] == 'o' && "docx"@[2] == 'c' && "docx"@[3] == 'x'
            && "odt"@.len() == 3 && "odt"@[0] == 'o' && "odt"@[1] == 'd' && "odt"@[2] == 't'
            && "rtf"@.len() == 3 && "rtf"@[0] == 'r' && "rtf"@[1] == 't' && "rtf"@[2] == 'f'
            && "epub"@.len() == 4 && "epub"@[0] == 'e' && "epub"@[1] == 'p' && "epub"@[2] == 'u' && "epub"@[3] == 'b'
            && "djvu"@.len() == 4 && "djvu"@[0] == 'd' && "djvu"@[1] == 'j' && "djvu"@[2] == 'v' && "djvu"@[3] == 'u'
            && "pages"@.len() == 5 && "pages"@[0] == 'p' && "pages"@[1] == 'a' && "pages"@[2] == 'g' && "pages"@[3] == 'e' && "pages"@[4] == 's'
            && "md"@.len() == 2 && "md"@[0] == 'm' && "md"@[1] == 'd'
            && "markdown"@.len() == 8 && "markdown"@[0] == 'm' && "markdown"@[1] == 'a' && "markdown"@[2] == 'r' && "markdown"@[3] == 'k' && "markdown"@[4] == 'd' && "markdown"@[5] == 'o' && "markdown"@[6] == 'w' && "markdown"@[7] == 'n'
            && "rst"@.len() == 3 && "rst"@[0] == 'r' && "rst"@[1] == 's' && "rst"@[2] == 't'
            && "adoc"@.len() == 4 && "adoc"@[0] == 'a' && "adoc"@[1] == 'd' && "adoc"@[2] == 'o' && "adoc"@[3] == 'c'
            && "tex"@.len() == 3 && "tex"@[0] == 't' && "tex"@[1] == 'e' && "tex"@[2] == 'x'
            && "latex"@.len() == 5 && "latex"@[0] == 'l' && "latex"@[1] == 'a' && "latex"@[2] == 't' && "latex"@[3] == 'e' && "latex"@[4] == 'x'
            && "xls"@.len() == 3 && "xls"@[0] == 'x' && "xls"@[1] == 'l' && "xls"@[2] == 's'
            && "xlsx"@.len() == 4 && "xlsx"@[0] == 'x' && "xlsx"@[1] == 'l' && "xlsx"@[2] == 's' && "xlsx"@[3] == 'x'
            && "ods"@.len() == 3 && "ods"@[0] == 'o' && "ods"@[1] == 'd' && "ods"@[2] == 's'
            && "csv"@.len() == 3 && "csv"@[0] == 'c' && "csv"@[1] == 's' && "csv"@[2] == 'v'
            && "tsv"@.len() == 3 && "tsv"@[0] == 't' && "tsv"@[1] == 's' && "tsv"@[2] == 'v'
            && "numbers"@.len() == 7 && "numbers"@[0] == 'n' && "numbers"@[1] == 'u' && "numbers"@[2] == 'm' && "numbers"@[3] == 'b' && "numbers"@[4] == 'e' && "numbers"@[5] == 'r' && "numbers"@[6] == 's'
            && "ppt"@.len() == 3 && "ppt"@[0] == 'p' && "ppt"@[1] == 'p' && "ppt"@[2] == 't'
            && "pptx"@.len() == 4 && "pptx"@[0] == 'p' && "pptx"@[1] == 'p' && "pptx"@[2] == 't' && "pptx"@[3] == 'x'
            && "odp"@.len() == 3 && "odp"@[0] == 'o' && "odp"@[1] == 'd' && "odp"@[2] == 'p'
            && "key"@.len() == 3 && "key"@[0] == 'k' && "key"@[1] == 'e' && "key"@[2] == 'y'
            && "odg"@.len() == 3 && "odg"@[0] == 'o' && "odg"@[1] == 'd' && "odg"@[2] == 'g'
            && "vsd"@.len() == 3 && "vsd"@[0] == 'v' && "vsd"@[1] == 's' && "vsd"@[2] == 'd'
            && "vsdx"@.len() == 4 && "vsdx"@[0] == 'v' && "vsdx"@[1] == 's' && "vsdx"@[2] == 'd' && "vsdx"@[3] == 'x'
            && "dia"@.len() == 3 && "dia"@[0] == 'd' && "dia"@[1] == 'i' && "dia"@[2] == 'a'
            && "zip"@.len() == 3 && "zip"@[0] == 'z' && "zip"@[1] == 'i' && "zip"@[2] == 'p'
            && "tar"@.len() == 3 && "tar"@[0] == 't' && "tar"@[1] == 'a' && "tar"@[2] == 'r'
            && "gz"@.len() == 2 && "gz"@[0] == 'g' && "gz"@[1] == 'z'
            && "bz2"@.len() == 3 && "bz2"@[0] == 'b' && "bz2"@[1] == 'z' && "bz2"@[2] == '2'
            && "xz"@.len() == 2 && "xz"@[0] == 'x' && "xz"@[1] == 'z'
            && "zst"@.len() == 3 && "zst"@[0] == 'z' && "zst"@[1] == 's' && "zst"@[2] == 't'
            && "lz4"@.len() == 3 && "lz4"@[0] == 'l' && "lz4"@[1] == 'z' && "lz4"@[2] == '4'
            && "lzma"@.len() == 4 && "lzma"@[0] == 'l' && "lzma"@[1] == 'z' && "lzma"@[2] == 'm' && "lzma"@[3] == 'a'
            && "7z"@.len() == 2 && "7z"@[0] == '7' && "7z"@[1] == 'z'
            && "rar"@.len() == 3 && "rar"@[0] == 'r' && "rar"@[1] == 'a' && "rar"@[2] == 'r'
            && "deb"@.len() == 3 && "deb"@[0] == 'd' && "deb"@[1] == 'e' && "deb"@[2] == 'b'
            && "rpm"@.len() == 3 && "rpm"@[0] == 'r' && "rpm"@[1] == 'p' && "rpm"@[2] == 'm'
            && "flatpak"@.len() == 7 && "flatpak"@[0] == 'f' && "flatpak"@[1] == 'l' && "flatpak"@[2] == 'a' && "flatpak"@[3] == 't' && "flatpak"@[4] == 'p' && "flatpak"@[5] == 'a' && "flatpak"@[6] == 'k'
            && "snap"@.len() == 4 && "snap"@[0] == 's' && "snap"@[1] == 'n' && "snap"@[2] == 'a' && "snap"@[3] == 'p'
            && "cab"@.len() == 3 && "cab"@[0] == 'c' && "cab"@[1] == 'a' && "cab"@[2] == 'b'
            && "cpio"@.len() == 4 && "cpio"@[0] == 'c' && "cpio"@[1] == 'p' && "cpio"@[2] == 'i' && "cpio"@[3] == 'o'
            && "ar"@.len() == 2 && "ar"@[0] == 'a' && "ar"@[1] == 'r'
            && "tgz"@.len() == 3 && "tgz"@[0] == 't' && "tgz"@[1] == 'g' && "tgz"@[2] == 'z'
            && "tbz2"@.len() == 4 && "tbz2"@[0] == 't' && "tbz2"@[1] == 'b' && "tbz2"@[2] == 'z' && "tbz2"@[3] == '2'
            && "txz"@.len() == 3 && "txz"@[0] == 't' && "txz"@[1] == 'x' && "txz"@[2] == 'z'
            && "ttf"@.len() == 3 && "ttf"@[0] == 't' && "ttf"@[1] == 't' && "ttf"@[2] == 'f'
            && "otf"@.len() == 3 && "otf"@[0] == 'o' && "otf"@[1] == 't' && "otf"@[2] == 'f'
            && "woff"@.len() == 4 && "woff"@[0] == 'w' && "woff"@[1] == 'o' && "woff"@[2] == 'f' && "woff"@[3] == 'f'
            && "woff2"@.len() == 5 && "woff2"@[0] == 'w' && "woff2"@[1] == 'o' && "woff2"@[2] == 'f' && "woff2"@[3] == 'f' && "woff2"@[4] == '2'
            && "eot"@.len() == 3 && "eot"@[0] == 'e' && "eot"@[1] == 'o' && "eot"@[2] == 't'
            && "exe"@.len() == 3 && "exe"@[0] == 'e' && "exe"@[1] == 'x' && "exe"@[2] == 'e'
            && "msi"@.len() == 3 && "msi"@[0] == 'm' && "msi"@[1] == 's' && "msi"@[2] == 'i'
            && "bin"@.len() == 3 && "bin"@[0] == 'b' && "bin"@[1] == 'i' && "bin"@[2] == 'n'
            && "appimage"@.len() == 8 && "appimage"@[0] == 'a' && "appimage"@[1] == 'p' && "appimage"@[2] == 'p' && "appimage"@[3] == 'i' && "appimage"@[4] == 'm' && "appimage"@[5] == 'a' && "appimage"@[6] == 'g' && "appimage"@[7] == 'e'
            && "run"@.len() == 3 && "run"@[0] == 'r' && "run"@[1] == 'u' && "run"@[2] == 'n'
            && "dmg"@.len() == 3 && "dmg"@[0] == 'd' && "dmg"@[1] == 'm' && "dmg"@[2] == 'g'
            && "pkg"@.len() == 3 && "pkg"@[0] == 'p' && "pkg"@[1] == 'k' && "pkg"@[2] == 'g'
            && "so"@.len() == 2 && "so"@[0] == 's' && "so"@[1] == 'o'
            && "dll"@.len() == 3 && "dll"@[0] == 'd' && "dll"@[1] == 'l' && "dll"@[2] == 'l'
            && "dylib"@.len() == 5 && "dylib"@[0] == 'd' && "dylib"@[1] == 'y' && "dylib"@[2] == 'l' && "dylib"@[3] == 'i' && "dylib"@[4] == 'b'
            && "iso"@.len() == 3 && "iso"@[0] == 'i' && "iso"@[1] == 's' && "iso"@[2] == 'o'
            && "img"@.len() == 3 && "img"@[0] == 'i' && "img"@[1] == 'm' && "img"@[2] == 'g'
            && "pem"@.len() == 3 && "pem"@[0] == 'p' && "pem"@[1] == 'e' && "pem"@[2] == 'm'
            && "crt"@.len() == 3 && "crt"@[0] == 'c' && "crt"@[1] == 'r' && "crt"@[2] == 't'
            && "cer"@.len() == 3 && "cer"@[0] == 'c' && "cer"@[1] == 'e' && "cer"@[2] == 'r'
            && "p12"@.len() == 3 && "p12"@[0] == 'p' && "p12"@[1] == '1' && "p12"@[2] == '2'
            && "pfx"@.len() == 3 && "pfx"@[0] == 'p' && "pfx"@[1] == 'f' && "pfx"@[2] == 'x'
    );
}

/// Every addon extension of the table gets its icon.
proof fn lemma_icons_addon()
    ensures
        icon_for_extension("xpi"@) == "application-x-addon-symbolic"@,
        icon_for_extension("crx"@) == "application-x-addon-symbolic"@,
{
    reveal_strlit("jpg");
    reveal_strlit("jpeg");
    reveal_strlit("png");
    reveal_strlit("gif");
    reveal_strlit("svg");
    reveal_strlit("webp");
    reveal_strlit("bmp");
    reveal_strlit("ico");
    reveal_strlit("tiff");
    reveal_strlit("tif");
    reveal_strlit("heic");
    reveal_strlit("heif");
    reveal_strlit("avif");
    reveal_strlit("raw");
    reveal_strlit("cr2");
    reveal_strlit("nef");
    reveal_strlit("psd");
    reveal_strlit("xcf");
    reveal_strlit("mp3");
    reveal_strlit("flac");
    reveal_strlit("ogg");
    reveal_strlit("oga");
    reveal_strlit("wav");
    reveal_strlit("aac");
    reveal_strlit("wma");
    reveal_strlit("m4a");
    reveal_strlit("opus");
    reveal_strlit("aiff");
    reveal_strlit("mid");
    reveal_strlit("midi");
    reveal_strlit("ac3");
    reveal_strlit("mp4");
    reveal_strlit("mkv");
    reveal_strlit("avi");
    reveal_strlit("webm");
    reveal_strlit("mov");
    reveal_strlit("wmv");
    reveal_strlit("flv");
    reveal_strlit("m4v");
    reveal_strlit("mpg");
    reveal_strlit("mpeg");
    reveal_strlit("3gp");
    reveal_strlit("ogv");
    reveal_strlit("pdf");
    reveal_strlit("doc");
    reveal_strlit("docx");
    reveal_strlit("odt");
    reveal_strlit("rtf");
    reveal_strlit("epub");
    reveal_strlit("djvu");
    reveal_strlit("pages");
    reveal_strlit("md");
    reveal_strlit("markdown");
    reveal_strlit("rst");
    reveal_strlit("adoc");
    reveal_strlit("tex");
    reveal_strlit("latex");
    reveal_strlit("xls");
    reveal_strlit("xlsx");
    reveal_strlit("ods");
    reveal_strlit("csv");
    reveal_strlit("tsv");
    reveal_strlit("numbers");
    reveal_strlit("ppt");
    reveal_strlit("pptx");
    reveal_strlit("odp");
    reveal_strlit("key");
    reveal_strlit("odg");
    reveal_strlit("vsd");
    reveal_strlit("vsdx");
    reveal_strlit("dia");
    reveal_strlit("zip");
    reveal_strlit("tar");
    reveal_strlit("gz");
    reveal_strlit("bz2");
    reveal_strlit("xz");
    reveal_strlit("zst");
    reveal_strlit("lz4");
    reveal_strlit("lzma");
    reveal_strlit("7z");
    reveal_strlit("rar");
    reveal_strlit("deb");
    reveal_strlit("rpm");
    reveal_strlit("flatpak");
    reveal_strlit("snap");
    reveal_strlit("cab");
    reveal_strlit("cpio");
    reveal_strlit("ar");
    reveal_strlit("tgz");
    reveal_strlit("tbz2");
    reveal_strlit("txz");
    reveal_strlit("ttf");
    reveal_strlit("otf");
    reveal_strlit("woff");
    reveal_strlit("woff2");
    reveal_strlit("eot");
    reveal_strlit("exe");
    reveal_strlit("msi");
    reveal_strlit("bin");
    reveal_strlit("appimage");
    reveal_strlit("run");
    reveal_strlit("dmg");
    reveal_strlit("pkg");
    reveal_strlit("so");
    reveal_strlit("dll");
    reveal_strlit("dylib");
    reveal_strlit("iso");
    reveal_strlit("img");
    reveal_strlit("pem");
    reveal_strlit("crt");
    reveal_strlit("cer");
    reveal_strlit("p12");
    reveal_strlit("pfx");
    reveal_strlit("xpi");
    reveal_strlit("crx");
    assert(
        "jpg"@.len() == 3 && "jpg"@[0] == 'j' && "jpg"@[1] == 'p' && "jpg"@[2] == 'g'
            && "jpeg"@.len() == 4 && "jpeg"@[0] == 'j' && "jpeg"@[1] == 'p' && "jpeg"@[2] == 'e' && "jpeg"@[3] == 'g'
            && "png"@.len() == 3 && "png"@[0] == 'p' && "png"@[1] == 'n' && "png"@[2] == 'g'
            && "gif"@.len() == 3 && "gif"@[0] == 'g' && "gif"@[1] == 'i' && "gif"@[2] == 'f'
            && "svg"@.len() == 3 && "svg"@[0] == 's' && "svg"@[1] == 'v' && "svg"@[2] == 'g'
            && "webp"@.len() == 4 && "webp"@[0] == 'w' && "webp"@[1] == 'e' && "webp"@[2] == 'b' && "webp"@[3] == 'p'
            && "bmp"@.len() == 3 && "bmp"@[0] == 'b' && "bmp"@[1] == 'm' && "bmp"@[2] == 'p'
            && "ico"@.len() == 3 && "ico"@[0] == 'i' && "ico"@[1] == 'c' && "ico"@[2] == 'o'
            && "tiff"@.len() == 4 && "tiff"@[0] == 't' && "tiff"@[1] == 'i' && "tiff"@[2] == 'f' && "tiff"@[3] == 'f'
            && "tif"@.len() == 3 && "tif"@[0] == 't' && "tif"@[1] == 'i' && "tif"@[2] == 'f'
            && "heic"@.len() == 4 && "heic"@[0] == 'h' && "heic"@[1] == 'e' && "heic"@[2] == 'i' && "heic"@[3] == 'c'
            && "heif"@.len() == 4 && "heif"@[0] == 'h' && "heif"@[1] == 'e' && "heif"@[2] == 'i' && "heif"@[3] == 'f'
            && "avif"@.len() == 4 && "avif"@[0] == 'a' && "avif"@[1] == 'v' && "avif"@[2] == 'i' && "avif"@[3] == 'f'
            && "raw"@.len() == 3 && "raw"@[0] == 'r' && "raw"@[1] == 'a' && "raw"@[2] == 'w'
            && "cr2"@.len() == 3 && "cr2"@[0] == 'c' && "cr2"@[1] == 'r' && "cr2"@[2] == '2'
            && "nef"@.len() == 3 && "nef"@[0] == 'n' && "nef"@[1] == 'e' && "nef"@[2] == 'f'
            && "psd"@.len() == 3 && "psd"@[0] == 'p' && "psd"@[1] == 's' && "psd"@[2] == 'd'
            && "xcf"@.len() == 3 && "xcf"@[0] == 'x' && "xcf"@[1] == 'c' && "xcf"@[2] == 'f'
            && "mp3"@.len() == 3 && "mp3"@[0] == 'm' && "mp3"@[1] == 'p' && "mp3"@[2] == '3'
            && "flac"@.len() == 4 && "flac"@[0] == 'f' && "flac"@[1] == 'l' && "flac"@[2] == 'a' && "flac"@[3] == 'c'
            && "ogg"@.len() == 3 && "ogg"@[0] == 'o' && "ogg"@[1] == 'g' && "ogg"@[2] == 'g'
            && "oga"@.len() == 3 && "oga"@[0] == 'o' && "oga"@[1] == 'g' && "oga"@[2] == 'a'
            && "wav"@.len() == 3 && "wav"@[0] == 'w' && "wav"@[1] == 'a' && "wav"@[2] == 'v'
            && "aac"@.len() == 3 && "aac"@[0] == 'a' && "aac"@[1] == 'a' && "aac"@[2] == 'c'
            && "wma"@.len() == 3 && "wma"@[0] == 'w' && "wma"@[1] == 'm' && "wma"@[2] == 'a'
            && "m4a"@.len() == 3 && "m4a"@[0] == 'm' && "m4a"@[1] == '4' && "m4a"@[2] == 'a'
            && "opus"@.len() == 4 && "opus"@[0] == 'o' && "opus"@[1] == 'p' && "opus"@[2] == 'u' && "opus"@[3] == 's'
            && "aiff"@.len() == 4 && "aiff"@[0] == 'a' && "aiff"@[1] == 'i' && "aiff"@[2] == 'f' && "aiff"@[3] == 'f'
            && "mid"@.len() == 3 && "mid"@[0] == 'm' && "mid"@[1] == 'i' && "mid"@[2] == 'd'
            && "midi"@.len() == 4 && "midi"@[0] == 'm' && "midi"@[1] == 'i' && "midi"@[2] == 'd' && "midi"@[3] == 'i'
            && "ac3"@.len() == 3 && "ac3"@[0] == 'a' && "ac3"@[1] == 'c' && "ac3"@[2] == '3'
            && "mp4"@.len() == 3 && "mp4"@[0] == 'm' && "mp4"@[1] == 'p' && "mp4"@[2] == '4'
            && "mkv"@.len() == 3 && "mkv"@[0] == 'm' && "mkv"@[1] == 'k' && "mkv"@[2] == 'v'
            && "avi"@.len() == 3 && "avi"@[0] == 'a' && "avi"@[1] == 'v' && "avi"@[2] == 'i'
            && "webm"@.len() == 4 && "webm"@[0] == 'w' && "webm"@[1] == 'e' && "webm"@[2] == 'b' && "webm"@[3] == 'm'
            && "mov"@.len() == 3 && "mov"@[0] == 'm' && "mov"@[1] == 'o' && "mov"@[2] == 'v'
            && "wmv"@.len() == 3 && "wmv"@[0] == 'w' && "wmv"@[1] == 'm' && "wmv"@[2] == 'v'
            && "flv"@.len() == 3 && "flv"@[0] == 'f' && "flv"@[1] == 'l' && "flv"@[2] == 'v'
            && "m4v"@.len() == 3 && "m4v"@[0] == 'm' && "m4v"@[1] == '4' && "m4v"@[2] == 'v'
            && "mpg"@.len() == 3 && "mpg"@[0] == 'm' && "mpg"@[1] == 'p' && "mpg"@[2] == 'g'
            && "mpeg"@.len() == 4 && "mpeg"@[0] == 'm' && "mpeg"@[1] == 'p' && "mpeg"@[2] == 'e' && "mpeg"@[3] == 'g'
            && "3gp"@.len() == 3 && "3gp"@[0] == '3' && "3gp"@[1] == 'g' && "3gp"@[2] == 'p'
            && "ogv"@.len() == 3 && "ogv"@[0] == 'o' && "ogv"@[1] == 'g' && "ogv"@[2] == 'v'
            && "pdf"@.len() == 3 && "pdf"@[0] == 'p' && "pdf"@[1] == 'd' && "pdf"@[2] == 'f'
            && "doc"@.len() == 3 && "doc"@[0] == 'd' && "doc"@[1] == 'o' && "doc"@[2] == 'c'
            && "docx"@.len() == 4 && "docx"@[0] == 'd' && "docx"@[1] == 'o' && "docx"@[2] == 'c' && "docx"@[3] == 'x'
            && "odt"@.len() == 3 && "odt"@[0] == 'o' && "odt"@[1] == 'd' && "odt"@[2] == 't'
            && "rtf"@.len() == 3 && "rtf"@[0] == 'r' && "rtf"@[1] == 't' && "rtf"@[2] == 'f'
            && "epub"@.len() == 4 && "epub"@[0] == 'e' && "epub"@[1] == 'p' && "epub"@[2] == 'u' && "epub"@[3] == 'b'
            && "djvu"@.len() == 4 && "djvu"@[0] == 'd' && "djvu"@[1] == 'j' && "djvu"@[2] == 'v' && "djvu"@[3] == 'u'
            && "pages"@.len() == 5 && "pages"@[0] == 'p' && "pages"@[1] == 'a' && "pages"@[2] == 'g' && "pages"@[3] == 'e' && "pages"@[4] == 's'
            && "md"@.len() == 2 && "md"@[0] == 'm' && "md"@[1] == 'd'
            && "markdown"@.len() == 8 && "markdown"@[0] == 'm' && "markdown"@[1] == 'a' && "markdown"@[2] == 'r' && "markdown"@[3] == 'k' && "markdown"@[4] == 'd' && "markdown"@[5] == 'o' && "markdown"@[6] == 'w' && "markdown"@[7] == 'n'
            && "rst"@.len() == 3 && "rst"@[0] == 'r' && "rst"@[1] == 's' && "rst"@[2] == 't'
            && "adoc"@.len() == 4 && "adoc"@[0] == 'a' && "adoc"@[1] == 'd' && "adoc"@[2] == 'o' && "adoc"@[3] == 'c'
            && "tex"@.len() == 3 && "tex"@[0] == 't' && "tex"@[1] == 'e' && "tex"@[2] == 'x'
            && "latex"@.len() == 5 && "latex"@[0] == 'l' && "latex"@[1] == 'a' && "latex"@[2] == 't' && "latex"@[3] == 'e' && "latex"@[4] == 'x'
            && "xls"@.len() == 3 && "xls"@[0] == 'x' && "xls"@[1] == 'l' && "xls"@[2] == 's'
            && "xlsx"@.len() == 4 && "xlsx"@[0] == 'x' && "xlsx"@[1] == 'l' && "xlsx"@[2] == 's' && "xlsx"@[3] == 'x'
            && "ods"@.len() == 3 && "ods"@[0] == 'o' && "ods"@[1] == 'd' && "ods"@[2] == 's'
            && "csv"@.len() == 3 && "csv"@[0] == 'c' && "csv"@[1] == 's' && "csv"@[2] == 'v'
            && "tsv"@.len() == 3 && "tsv"@[0] == 't' && "tsv"@[1] == 's' && "tsv"@[2] == 'v'
            && "numbers"@.len() == 7 && "numbers"@[0] == 'n' && "numbers"@[1] == 'u' && "numbers"@[2] == 'm' && "numbers"@[3] == 'b' && "numbers"@[4] == 'e' && "numbers"@[5] == 'r' && "numbers"@[6] == 's'
            && "ppt"@.len() == 3 && "ppt"@[0] == 'p' && "ppt"@[1] == 'p' && "ppt"@[2] == 't'
            && "pptx"@.len() == 4 && "pptx"@[0] == 'p' && "pptx"@[1] == 'p' && "pptx"@[2] == 't' && "pptx"@[3] == 'x'
            && "odp"@.len() == 3 && "odp"@[0] == 'o' && "odp"@[1] == 'd' && "odp"@[2] == 'p'
            && "key"@.len() == 3 && "key"@[0] == 'k' && "key"@[1] == 'e' && "key"@[2] == 'y'
            && "odg"@.len() == 3 && "odg"@[0] == 'o' && "odg"@[1] == 'd' && "odg"@[2] == 'g'
            && "vsd"@.len() == 3 && "vsd"@[0] == 'v' && "vsd"@[1] == 's' && "vsd"@[2] == 'd'
            && "vsdx"@.len() == 4 && "vsdx"@[0] == 'v' && "vsdx"@[1] == 's' && "vsdx"@[2] == 'd' && "vsdx"@[3] == 'x'
            && "dia"@.len() == 3 && "dia"@[0] == 'd' && "dia"@[1] == 'i' && "dia"@[2] == 'a'
            && "zip"@.len() == 3 && "zip"@[0] == 'z' && "zip"@[1] == 'i' && "zip"@[2] == 'p'
            && "tar"@.len() == 3 && "tar"@[0] == 't' && "tar"@[1] == 'a' && "tar"@[2] == 'r'
            && "gz"@.len() == 2 && "gz"@[0] == 'g' && "gz"@[1] == 'z'
            && "bz2"@.len() == 3 && "bz2"@[0] == 'b' && "bz2"@[1] == 'z' && "bz2"@[2] == '2'
            && "xz"@.len() == 2 && "xz"@[0] == 'x' && "xz"@[1] == 'z'
            && "zst"@.len() == 3 && "zst"@[0] == 'z' && "zst"@[1] == 's' && "zst"@[2] == 't'
            && "lz4"@.len() == 3 && "lz4"@[0] == 'l' && "lz4"@[1] == 'z' && "lz4"@[2] == '4'
            && "lzma"@.len() == 4 && "lzma"@[0] == 'l' && "lzma"@[1] == 'z' && "lzma"@[2] == 'm' && "lzma"@[3] == 'a'
            && "7z"@.len() == 2 && "7z"@[0] == '7' && "7z"@[1] == 'z'
            && "rar"@.len() == 3 && "rar"@[0] == 'r' && "rar"@[1] == 'a' && "rar"@[2] == 'r'
            && "deb"@.len() == 3 && "deb"@[0] == 'd' && "deb"@[1] == 'e' && "deb"@[2] == 'b'
            && "rpm"@.len() == 3 && "rpm"@[0] == 'r' && "rpm"@[1] == 'p' && "rpm"@[2] == 'm'
            && "flatpak"@.len() == 7 && "flatpak"@[0] == 'f' && "flatpak"@[1] == 'l' && "flatpak"@[2] == 'a' && "flatpak"@[3] == 't' && "flatpak"@[4] == 'p' && "flatpak"@[5] == 'a' && "flatpak"@[6] == 'k'
            && "snap"@.len() == 4 && "snap"@[0] == 's' && "snap"@[1] == 'n' && "snap"@[2] == 'a' && "snap"@[3] == 'p'
            && "cab"@.len() == 3 && "cab"@[0] == 'c' && "cab"@[1] == 'a' && "cab"@[2] == 'b'
            && "cpio"@.len() == 4 && "cpio"@[0] == 'c' && "cpio"@[1] == 'p' && "cpio"@[2] == 'i' && "cpio"@[3] == 'o'
            && "ar"@.len() == 2 && "ar"@[0] == 'a' && "ar"@[1] == 'r'
            && "tgz"@.len() == 3 && "tgz"@[0] == 't' && "tgz"@[1] == 'g' && "tgz"@[2] == 'z'
            && "tbz2"@.len() == 4 && "tbz2"@[0] == 't' && "tbz2"@[1] == 'b' && "tbz2"@[2] == 'z' && "tbz2"@[3] == '2'
            && "txz"@.len() == 3 && "txz"@[0] == 't' && "txz"@[1] == 'x' && "txz"@[2] == 'z'
            && "ttf"@.len() == 3 && "ttf"@[0] == 't' && "ttf"@[1] == 't' && "ttf"@[2] == 'f'
            && "otf"@.len() == 3 && "otf"@[0] == 'o' && "otf"@[1] == 't' && "otf"@[2] == 'f'
            && "woff"@.len() == 4 && "woff"@[0] == 'w' && "woff"@[1] == 'o' && "woff"@[2] == 'f' && "woff"@[3] == 'f'
            && "woff2"@.len() == 5 && "woff2"@[0] == 'w' && "woff2"@[1] == 'o' && "woff2"@[2] == 'f' && "woff2"@[3] == 'f' && "woff2"@[4] == '2'
            && "eot"@.len() == 3 && "eot"@[0] == 'e' && "eot"@[1] == 'o' && "eot"@[2] == 't'
            && "exe"@.len() == 3 && "exe"@[0] == 'e' && "exe"@[1] == 'x' && "exe"@[2] == 'e'
            && "msi"@.len() == 3 && "msi"@[0] == 'm' && "msi"@[1] == 's' && "msi"@[2] == 'i'
            && "bin"@.len() == 3 && "bin"@[0] == 'b' && "bin"@[1] == 'i' && "bin"@[2] == 'n'
            && "appimage"@.len() == 8 && "appimage"@[0] == 'a' && "appimage"@[1] == 'p' && "appimage"@[2] == 'p' && "appimage"@[3] == 'i' && "appimage"@[4] == 'm' && "appimage"@[5] == 'a' && "appimage"@[6] == 'g' && "appimage"@[7] == 'e'
            && "run"@.len() == 3 && "run"@[0] == 'r' && "run"@[1] == 'u' && "run"@[2] == 'n'
            && "dmg"@.len() == 3 && "dmg"@[0] == 'd' && "dmg"@[1] == 'm' && "dmg"@[2] == 'g'
            && "pkg"@.len() == 3 && "pkg"@[0] == 'p' && "pkg"@[1] == 'k' && "pkg"@[2] == 'g'
            && "so"@.len() == 2 && "so"@[0] == 's' && "so"@[1] == 'o'
            && "dll"@.len() == 3 && "dll"@[0] == 'd' && "dll"@[1] == 'l' && "dll"@[2] == 'l'
            && "dylib"@.len() == 5 && "dylib"@[0] == 'd' && "dylib"@[1] == 'y' && "dylib"@[2] == 'l' && "dylib"@[3] == 'i' && "dylib"@[4] == 'b'
            && "iso"@.len() == 3 && "iso"@[0] == 'i' && "iso"@[1] == 's' && "iso"@[2] == 'o'
            && "img"@.len() == 3 && "img"@[0] == 'i' && "img"@[1] == 'm' && "img"@[2] == 'g'
            && "pem"@.len() == 3 && "pem"@[0] == 'p' && "pem"@[1] == 'e' && "pem"@[2] == 'm'
            && "crt"@.len() == 3 && "crt"@[0] == 'c' && "crt"@[1] == 'r' && "crt"@[2] == 't'
            && "cer"@.len() == 3 && "cer"@[0] == 'c' && "cer"@[1] == 'e' && "cer"@[2] == 'r'
            && "p12"@.len() == 3 && "p12"@[0] == 'p' && "p12"@[1] == '1' && "p12"@[2] == '2'
            && "pfx"@.len() == 3 && "pfx"@[0] == 'p' && "pfx"@[1] == 'f' && "pfx"@[2] == 'x'
            && "xpi"@.len() == 3 && "xpi"@[0] == 'x' && "xpi"@[1] == 'p' && "xpi"@[2] == 'i'
            && "crx"@.len() == 3 && "crx"@[0] == 'c' && "crx"@[1] == 'r' && "crx"@[2] == 'x'
    );
}

/// Every firmware extension of the table gets its icon.
proof fn lemma_icons_firmware()
    ensures
        icon_for_extension("fw"@) == "application-x-firmware-symbolic"@,
        icon_for_extension("rom"@) == "application-x-firmware-symbolic"@,
        icon_for_extension("bios"@) == "application-x-firmware-symbolic"@,
{
    reveal_strlit("jpg");
    reveal_strlit("jpeg");
    reveal_strlit("png");
    reveal_strlit("gif");
    reveal_strlit("svg");
    reveal_strlit("webp");
    reveal_strlit("bmp");
    reveal_strlit("ico");
    reveal_strlit("tiff");
    reveal_strlit("tif");
    reveal_strlit("heic");
    reveal_strlit("heif");
    reveal_strlit("avif");
    reveal_strlit("raw");
    reveal_strlit("cr2");
    reveal_strlit("nef");
    reveal_strlit("psd");
    reveal_strlit("xcf");
    reveal_strlit("mp3");
    reveal_strlit("flac");
    reveal_strlit("ogg");
    reveal_strlit("oga");
    reveal_strlit("wav");
    reveal_strlit("aac");
    reveal_strlit("wma");
    reveal_strlit("m4a");
    reveal_strlit("opus");
    reveal_strlit("aiff");
    reveal_strlit("mid");
    reveal_strlit("midi");
    reveal_strlit("ac3");
    reveal_strlit("mp4");
    reveal_strlit("mkv");
    reveal_strlit("avi");
    reveal_strlit("webm");
    reveal_strlit("mov");
    reveal_strlit("wmv");
    reveal_strlit("flv");
    reveal_strlit("m4v");
    reveal_strlit("mpg");
    reveal_strlit("mpeg");
    reveal_strlit("3gp");
    reveal_strlit("ogv");
    reveal_strlit("pdf");
    reveal_strlit("doc");
    reveal_strlit("docx");
    reveal_strlit("odt");
    reveal_strlit("rtf");
    reveal_strlit("epub");
    reveal_strlit("djvu");
    reveal_strlit("pages");
    reveal_strlit("md");
    reveal_strlit("markdown");
    reveal_strlit("rst");
    reveal_strlit("adoc");
    reveal_strlit("tex");
    reveal_strlit("latex");
    reveal_strlit("xls");
    reveal_strlit("xlsx");
    reveal_strlit("ods");
    reveal_strlit("csv");
    reveal_strlit("tsv");
    reveal_strlit("numbers");
    reveal_strlit("ppt");
    reveal_strlit("pptx");
    reveal_strlit("odp");
    reveal_strlit("key");
    reveal_strlit("odg");
    reveal_strlit("vsd");
    reveal_strlit("vsdx");
    reveal_strlit("dia");
    reveal_strlit("zip");
    reveal_strlit("tar");
    reveal_strlit("gz");
    reveal_strlit("bz2");
    reveal_strlit("xz");
    reveal_strlit("zst");
    reveal_strlit("lz4");
    reveal_strlit("lzma");
    reveal_strlit("7z");
    reveal_strlit("rar");
    reveal_strlit("deb");
    reveal_strlit("rpm");
    reveal_strlit("flatpak");
    reveal_strlit("snap");
    reveal_strlit("cab");
    reveal_strlit("cpio");
    reveal_strlit("ar");
    reveal_strlit("tgz");
    reveal_strlit("tbz2");
    reveal_strlit("txz");
    reveal_strlit("ttf");
    reveal_strlit("otf");
    reveal_strlit("woff");
    reveal_strlit("woff2");
    reveal_strlit("eot");
    reveal_strlit("exe");
    reveal_strlit("msi");
    reveal_strlit("bin");
    reveal_strlit("appimage");
    reveal_strlit("run");
    reveal_strlit("dmg");
    reveal_strlit("pkg");
    reveal_strlit("so");
    reveal_strlit("dll");
    reveal_strlit("dylib");
    reveal_strlit("iso");
    reveal_strlit("img");
    reveal_strlit("pem");
    reveal_strlit("crt");
    reveal_strlit("cer");
    reveal_strlit("p12");
    reveal_strlit("pfx");
    reveal_strlit("xpi");
    reveal_strlit("crx");
    reveal_strlit("fw");
    reveal_strlit("rom");
    reveal_strlit("bios");
    assert(
        "jpg"@.len() == 3 && "jpg"@[0] == 'j' && "jpg"@[1] == 'p' && "jpg"@[2] == 'g'
            && "jpeg"@.len() == 4 && "jpeg"@[0] == 'j' && "jpeg"@[1] == 'p' && "jpeg"@[2] == 'e' && "jpeg"@[3] == 'g'
            && "png"@.len() == 3 && "png"@[0] == 'p' && "png"@[1] == 'n' && "png"@[2] == 'g'
            && "gif"@.len() == 3 && "gif"@[0] == 'g' && "gif"@[1] == 'i' && "gif"@[2] == 'f'
            && "svg"@.len() == 3 && "svg"@[0] == 's' && "svg"@[1] == 'v' && "svg"@[2] == 'g'
            && "webp"@.len() == 4 && "webp"@[0] == 'w' && "webp"@[1] == 'e' && "webp"@[2] == 'b' && "webp"@[3] == 'p'
            && "bmp"@.len() == 3 && "bmp"@[0] == 'b' && "bmp"@[1] == 'm' && "bmp"@[2] == 'p'
            && "ico"@.len() == 3 && "ico"@[0] == 'i' && "ico"@[1] == 'c' && "ico"@[2] == 'o'
            && "tiff"@.len() == 4 && "tiff"@[0] == 't' && "tiff"@[1] == 'i' && "tiff"@[2] == 'f' && "tiff"@[3] == 'f'
            && "tif"@.len() == 3 && "tif"@[0] == 't' && "tif"@[1] == 'i' && "tif"@[2] == 'f'
            && "heic"@.len() == 4 && "heic"@[0] == 'h' && "heic"@[1] == 'e' && "heic"@[2] == 'i' && "heic"@[3] == 'c'
            && "heif"@.len() == 4 && "heif"@[0] == 'h' && "heif"@[1] == 'e' && "heif"@[2] == 'i' && "heif"@[3] == 'f'
            && "avif"@.len() == 4 && "avif"@[0] == 'a' && "avif"@[1] == 'v' && "avif"@[2] == 'i' && "avif"@[3] == 'f'
            && "raw"@.len() == 3 && "raw"@[0] == 'r' && "raw"@[1] == 'a' && "raw"@[2] == 'w'
            && "cr2"@.len() == 3 && "cr2"@[0] == 'c' && "cr2"@[1] == 'r' && "cr2"@[2] == '2'
            && "nef"@.len() == 3 && "nef"@[0] == 'n' && "nef"@[1] == 'e' && "nef"@[2] == 'f'
            && "psd"@.len() == 3 && "psd"@[0] == 'p' && "psd"@[1] == 's' && "psd"@[2] == 'd'
            && "xcf"@.len() == 3 && "xcf"@[0] == 'x' && "xcf"@[1] == 'c' && "xcf"@[2] == 'f'
            && "mp3"@.len() == 3 && "mp3"@[0] == 'm' && "mp3"@[1] == 'p' && "mp3"@[2] == '3'
            && "flac"@.len() == 4 && "flac"@[0] == 'f' && "flac"@[1] == 'l' && "flac"@[2] == 'a' && "flac"@[3] == 'c'
            && "ogg"@.len() == 3 && "ogg"@[0] == 'o' && "ogg"@[1] == 'g' && "ogg"@[2] == 'g'
            && "oga"@.len() == 3 && "oga"@[0] == 'o' && "oga"@[1] == 'g' && "oga"@[2] == 'a'
            && "wav"@.len() == 3 && "wav"@[0] == 'w' && "wav"@[1] == 'a' && "wav"@[2] == 'v'
            && "aac"@.len() == 3 && "aac"@[0] == 'a' && "aac"@[1] == 'a' && "aac"@[2] == 'c'
            && "wma"@.len() == 3 && "wma"@[0] == 'w' && "wma"@[1] == 'm' && "wma"@[2] == 'a'
            && "m4a"@.len() == 3 && "m4a"@[0] == 'm' && "m4a"@[1] == '4' && "m4a"@[2] == 'a'
            && "opus"@.len() == 4 && "opus"@[0] == 'o' && "opus"@[1] == 'p' && "opus"@[2] == 'u' && "opus"@[3] == 's'
            && "aiff"@.len() == 4 && "aiff"@[0] == 'a' && "aiff"@[1] == 'i' && "aiff"@[2] == 'f' && "aiff"@[3] == 'f'
            && "mid"@.len() == 3 && "mid"@[0] == 'm' && "mid"@[1] == 'i' && "mid"@[2] == 'd'
            && "midi"@.len() == 4 && "midi"@[0] == 'm' && "midi"@[1] == 'i' && "midi"@[2] == 'd' && "midi"@[3] == 'i'
            && "ac3"@.len() == 3 && "ac3"@[0] == 'a' && "ac3"@[1] == 'c' && "ac3"@[2] == '3'
            && "mp4"@.len() == 3 && "mp4"@[0] == 'm' && "mp4"@[1] == 'p' && "mp4"@[2] == '4'
            && "mkv"@.len() == 3 && "mkv"@[0] == 'm' && "mkv"@[1] == 'k' && "mkv"@[2] == 'v'
            && "avi"@.len() == 3 && "avi"@[0] == 'a' && "avi"@[1] == 'v' && "avi"@[2] == 'i'
            && "webm"@.len() == 4 && "webm"@[0] == 'w' && "webm"@[1] == 'e' && "webm"@[2] == 'b' && "webm"@[3] == 'm'
            && "mov"@.len() == 3 && "mov"@[0] == 'm' && "mov"@[1] == 'o' && "mov"@[2] == 'v'
            && "wmv"@.len() == 3 && "wmv"@[0] == 'w' && "wmv"@[1] == 'm' && "wmv"@[2] == 'v'
            && "flv"@.len() == 3 && "flv"@[0] == 'f' && "flv"@[1] == 'l' && "flv"@[2] == 'v'
            && "m4v"@.len() == 3 && "m4v"@[0] == 'm' && "m4v"@[1] == '4' && "m4v"@[2] == 'v'
            && "mpg"@.len() == 3 && "mpg"@[0] == 'm' && "mpg"@[1] == 'p' && "mpg"@[2] == 'g'
            && "mpeg"@.len() == 4 && "mpeg"@[0] == 'm' && "mpeg"@[1] == 'p' && "mpeg"@[2] == 'e' && "mpeg"@[3] == 'g'
            && "3gp"@.len() == 3 && "3gp"@[0] == '3' && "3gp"@[1] == 'g' && "3gp"@[2] == 'p'
            && "ogv"@.len() == 3 && "ogv"@[0] == 'o' && "ogv"@[1] == 'g' && "ogv"@[2] == 'v'
            && "pdf"@.len() == 3 && "pdf"@[0] == 'p' && "pdf"@[1] == 'd' && "pdf"@[2] == 'f'
            && "doc"@.len() == 3 && "doc"@[0] == 'd' && "doc"@[1] == 'o' && "doc"@[2] == 'c'
            && "docx"@.len() == 4 && "docx"@[0] == 'd' && "docx"@[1] == 'o' && "docx"@[2] == 'c' && "docx"@[3] == 'x'
            && "odt"@.len() == 3 && "odt"@[0] == 'o' && "odt"@[1] == 'd' && "odt"@[2] == 't'
            && "rtf"@.len() == 3 && "rtf"@[0] == 'r' && "rtf"@[1] == 't' && "rtf"@[2] == 'f'
            && "epub"@.len() == 4 && "epub"@[0] == 'e' && "epub"@[1] == 'p' && "epub"@[2] == 'u' && "epub"@[3] == 'b'
            && "djvu"@.len() == 4 && "djvu"@[0] == 'd' && "djvu"@[1] == 'j' && "djvu"@[2] == 'v' && "djvu"@[3] == 'u'
            && "pages"@.len() == 5 && "pages"@[0] == 'p' && "pages"@[1] == 'a' && "pages"@[2] == 'g' && "pages"@[3] == 'e' && "pages"@[4] == 's'
            && "md"@.len() == 2 && "md"@[0] == 'm' && "md"@[1] == 'd'
            && "markdown"@.len() == 8 && "markdown"@[0] == 'm' && "markdown"@[1] == 'a' && "markdown"@[2] == 'r' && "markdown"@[3] == 'k' && "markdown"@[4] == 'd' && "markdown"@[5] == 'o' && "markdown"@[6] == 'w' && "markdown"@[7] == 'n'
            && "rst"@.len() == 3 && "rst"@[0] == 'r' && "rst"@[1] == 's' && "rst"@[2] == 't'
            && "adoc"@.len() == 4 && "adoc"@[0] == 'a' && "adoc"@[1] == 'd' && "adoc"@[2] == 'o' && "adoc"@[3] == 'c'
            && "tex"@.len() == 3 && "tex"@[0] == 't' && "tex"@[1] == 'e' && "tex"@[2] == 'x'
            && "latex"@.len() == 5 && "latex"@[0] == 'l' && "latex"@[1] == 'a' && "latex"@[2] == 't' && "latex"@[3] == 'e' && "latex"@[4] == 'x'
            && "xls"@.len() == 3 && "xls"@[0] == 'x' && "xls"@[1] == 'l' && "xls"@[2] == 's'
            && "xlsx"@.len() == 4 && "xlsx"@[0] == 'x' && "xlsx"@[1] == 'l' && "xlsx"@[2] == 's' && "xlsx"@[3] == 'x'
            && "ods"@.len() == 3 && "ods"@[0] == 'o' && "ods"@[1] == 'd' && "ods"@[2] == 's'
            && "csv"@.len() == 3 && "csv"@[0] == 'c' && "csv"@[1] == 's' && "csv"@[2] == 'v'
            && "tsv"@.len() == 3 && "tsv"@[0] == 't' && "tsv"@[1] == 's' && "tsv"@[2] == 'v'
            && "numbers"@.len() == 7 && "numbers"@[0] == 'n' && "numbers"@[1] == 'u' && "numbers"@[2] == 'm' && "numbers"@[3] == 'b' && "numbers"@[4] == 'e' && "numbers"@[5] == 'r' && "numbers"@[6] == 's'
            && "ppt"@.len() == 3 && "ppt"@[0] == 'p' && "ppt"@[1] == 'p' && "ppt"@[2] == 't'
            && "pptx"@.len() == 4 && "pptx"@[0] == 'p' && "pptx"@[1] == 'p' && "pptx"@[2] == 't' && "pptx"@[3] == 'x'
            && "odp"@.len() == 3 && "odp"@[0] == 'o' && "odp"@[1] == 'd' && "odp"@[2] == 'p'
            && "key"@.len() == 3 && "key"@[0] == 'k' && "key"@[1] == 'e' && "key"@[2] == 'y'
            && "odg"@.len() == 3 && "odg"@[0] == 'o' && "odg"@[1] == 'd' && "odg"@[2] == 'g'
            && "vsd"@.len() == 3 && "vsd"@[0] == 'v' && "vsd"@[1] == 's' && "vsd"@[2] == 'd'
            && "vsdx"@.len() == 4 && "vsdx"@[0] == 'v' && "vsdx"@[1] == 's' && "vsdx"@[2] == 'd' && "vsdx"@[3] == 'x'
            && "dia"@.len() == 3 && "dia"@[0] == 'd' && "dia"@[1] == 'i' && "dia"@[2] == 'a'
            && "zip"@.len() == 3 && "zip"@[0] == 'z' && "zip"@[1] == 'i' && "zip"@[2] == 'p'
            && "tar"@.len() == 3 && "tar"@[0] == 't' && "tar"@[1] == 'a' && "tar"@[2] == 'r'
            && "gz"@.len() == 2 && "gz"@[0] == 'g' && "gz"@[1] == 'z'
            && "bz2"@.len() == 3 && "bz2"@[0] == 'b' && "bz2"@[1] == 'z' && "bz2"@[2] == '2'
            && "xz"@.len() == 2 && "xz"@[0] == 'x' && "xz"@[1] == 'z'
            && "zst"@.len() == 3 && "zst"@[0] == 'z' && "zst"@[1] == 's' && "zst"@[2] == 't'
            && "lz4"@.len() == 3 && "lz4"@[0] == 'l' && "lz4"@[1] == 'z' && "lz4"@[2] == '4'
            && "lzma"@.len() == 4 && "lzma"@[0] == 'l' && "lzma"@[1] == 'z' && "lzma"@[2] == 'm' && "lzma"@[3] == 'a'
            && "7z"@.len() == 2 && "7z"@[0] == '7' && "7z"@[1] == 'z'
            && "rar"@.len() == 3 && "rar"@[0] == 'r' && "rar"@[1] == 'a' && "rar"@[2] == 'r'
            && "deb"@.len() == 3 && "deb"@[0] == 'd' && "deb"@[1] == 'e' && "deb"@[2] == 'b'
            && "rpm"@.len() == 3 && "rpm"@[0] == 'r' && "rpm"@[1] == 'p' && "rpm"@[2] == 'm'
            && "flatpak"@.len() == 7 && "flatpak"@[0] == 'f' && "flatpak"@[1] == 'l' && "flatpak"@[2] == 'a' && "flatpak"@[3] == 't' && "flatpak"@[4] == 'p' && "flatpak"@[5] == 'a' && "flatpak"@[6] == 'k'
            && "snap"@.len() == 4 && "snap"@[0] == 's' && "snap"@[1] == 'n' && "snap"@[2] == 'a' && "snap"@[3] == 'p'
            && "cab"@.len() == 3 && "cab"@[0] == 'c' && "cab"@[1] == 'a' && "cab"@[2] == 'b'
            && "cpio"@.len() == 4 && "cpio"@[0] == 'c' && "cpio"@[1] == 'p' && "cpio"@[2] == 'i' && "cpio"@[3] == 'o'
            && "ar"@.len() == 2 && "ar"@[0] == 'a' && "ar"@[1] == 'r'
            && "tgz"@.len() == 3 && "tgz"@[0] == 't' && "tgz"@[1] == 'g' && "tgz"@[2] == 'z'
            && "tbz2"@.len() == 4 && "tbz2"@[0] == 't' && "tbz2"@[1] == 'b' && "tbz2"@[2] == 'z' && "tbz2"@[3] == '2'
            && "txz"@.len() == 3 && "txz"@[0] == 't' && "txz"@[1] == 'x' && "txz"@[2] == 'z'
            && "ttf"@.len() == 3 && "ttf"@[0] == 't' && "ttf"@[1] == 't' && "ttf"@[2] == 'f'
            && "otf"@.len() == 3 && "otf"@[0] == 'o' && "otf"@[1] == 't' && "otf"@[2] == 'f'
            && "woff"@.len() == 4 && "woff"@[0] == 'w' && "woff"@[1] == 'o' && "woff"@[2] == 'f' && "woff"@[3] == 'f'
            && "woff2"@.len() == 5 && "woff2"@[0] == 'w' && "woff2"@[1] == 'o' && "woff2"@[2] == 'f' && "woff2"@[3] == 'f' && "woff2"@[4] == '2'
            && "eot"@.len() == 3 && "eot"@[0] == 'e' && "eot"@[1] == 'o' && "eot"@[2] == 't'
            && "exe"@.len() == 3 && "exe"@[0] == 'e' && "exe"@[1] == 'x' && "exe"@[2] == 'e'
            && "msi"@.len() == 3 && "msi"@[0] == 'm' && "msi"@[1] == 's' && "msi"@[2] == 'i'
            && "bin"@.len() == 3 && "bin"@[0] == 'b' && "bin"@[1] == 'i' && "bin"@[2] == 'n'
            && "appimage"@.len() == 8 && "appimage"@[0] == 'a' && "appimage"@[1] == 'p' && "appimage"@[2] == 'p' && "appimage"@[3] == 'i' && "appimage"@[4] == 'm' && "appimage"@[5] == 'a' && "appimage"@[6] == 'g' && "appimage"@[7] == 'e'
            && "run"@.len() == 3 && "run"@[0] == 'r' && "run"@[1] == 'u' && "run"@[2] == 'n'
            && "dmg"@.len() == 3 && "dmg"@[0] == 'd' && "dmg"@[1] == 'm' && "dmg"@[2] == 'g'
            && "pkg"@.len() == 3 && "pkg"@[0] == 'p' && "pkg"@[1] == 'k' && "pkg"@[2] == 'g'
            && "so"@.len() == 2 && "so"@[0] == 's' && "so"@[1] == 'o'
            && "dll"@.len() == 3 && "dll"@[0] == 'd' && "dll"@[1] == 'l' && "dll"@[2] == 'l'
            && "dylib"@.len() == 5 && "dylib"@[0] == 'd' && "dylib"@[1] == 'y' && "dylib"@[2] == 'l' && "dylib"@[3] == 'i' && "dylib"@[4] == 'b'
            && "iso"@.len() == 3 && "iso"@[0] == 'i' && "iso"@[1] == 's' && "iso"@[2] == 'o'
            && "img"@.len() == 3 && "img"@[0] == 'i' && "img"@[1] == 'm' && "img"@[2] == 'g'
            && "pem"@.len() == 3 && "pem"@[0] == 'p' && "pem"@[1] == 'e' && "pem"@[2] == 'm'
            && "crt"@.len() == 3 && "crt"@[0] == 'c' && "crt"@[1] == 'r' && "crt"@[2] == 't'
            && "cer"@.len() == 3 && "cer"@[0] == 'c' && "cer"@[1] == 'e' && "cer"@[2] == 'r'
            && "p12"@.len() == 3 && "p12"@[0] == 'p' && "p12"@[1] == '1' && "p12"@[2] == '2'
            && "pfx"@.len() == 3 && "pfx"@[0] == 'p' && "pfx"@[1] == 'f' && "pfx"@[2] == 'x'
            && "xpi"@.len() == 3 && "xpi"@[0] == 'x' && "xpi"@[1] == 'p' && "xpi"@[2] == 'i'
            && "crx"@.len() == 3 && "crx"@[0] == 'c' && "crx"@[1] == 'r' && "crx"@[2] == 'x'
            && "fw"@.len() == 2 && "fw"@[0] == 'f' && "fw"@[1] == 'w'
            && "rom"@.len() == 3 && "rom"@[0] == 'r' && "rom"@[1] == 'o' && "rom"@[2] == 'm'
            && "bios"@.len() == 4 && "bios"@[0] == 'b' && "bios"@[1] == 'i' && "bios"@[2] == 'o' && "bios"@[3] == 's'
    );
}

/// Every feed extension of the table gets its icon.
proof fn lemma_icons_feed()
    ensures
        icon_for_extension("rss"@) == "application-rss+xml-symbolic"@,
        icon_for_extension("atom"@) == "application-rss+xml-symbolic"@,
{
    reveal_strlit("jpg");
    reveal_strlit("jpeg");
    reveal_strlit("png");
    reveal_strlit("gif");
    reveal_strlit("svg");
    reveal_strlit("webp");
    reveal_strlit("bmp");
    reveal_strlit("ico");
    reveal_strlit("tiff");
    reveal_strlit("tif");
    reveal_strlit("heic");
    reveal_strlit("heif");
    reveal_strlit("avif");
    reveal_strlit("raw");
    reveal_strlit("cr2");
    reveal_strlit("nef");
    reveal_strlit("psd");
    reveal_strlit("xcf");
    reveal_strlit("mp3");
    reveal_strlit("flac");
    reveal_strlit("ogg");
    reveal_strlit("oga");
    reveal_strlit("wav");
    reveal_strlit("aac");
    reveal_strlit("wma");
    reveal_strlit("m4a");
    reveal_strlit("opus");
    reveal_strlit("aiff");
    reveal_strlit("mid");
    reveal_strlit("midi");
    reveal_strlit("ac3");
    reveal_strlit("mp4");
    reveal_strlit("mkv");
    reveal_strlit("avi");
    reveal_strlit("webm");
    reveal_strlit("mov");
    reveal_strlit("wmv");
    reveal_strlit("flv");
    reveal_strlit("m4v");
    reveal_strlit("mpg");
    reveal_strlit("mpeg");
    reveal_strlit("3gp");
    reveal_strlit("ogv");
    reveal_strlit("pdf");
    reveal_strlit("doc");
    reveal_strlit("docx");
    reveal_strlit("odt");
    reveal_strlit("rtf");
    reveal_strlit("epub");
    reveal_strlit("djvu");
    reveal_strlit("pages");
    reveal_strlit("md");
    reveal_strlit("markdown");
    reveal_strlit("rst");
    reveal_strlit("adoc");
    reveal_strlit("tex");
    reveal_strlit("latex");
    reveal_strlit("xls");
    reveal_strlit("xlsx");
    reveal_strlit("ods");
    reveal_strlit("csv");
    reveal_strlit("tsv");
    reveal_strlit("numbers");
    reveal_strlit("ppt");
    reveal_strlit("pptx");
    reveal_strlit("odp");
    reveal_strlit("key");
    reveal_strlit("odg");
    reveal_strlit("vsd");
    reveal_strlit("vsdx");
    reveal_strlit("dia");
    reveal_strlit("zip");
    reveal_strlit("tar");
    reveal_strlit("gz");
    reveal_strlit("bz2");
    reveal_strlit("xz");
    reveal_strlit("zst");
    reveal_strlit("lz4");
    reveal_strlit("lzma");
    reveal_strlit("7z");
    reveal_strlit("rar");
    reveal_strlit("deb");
    reveal_strlit("rpm");
    reveal_strlit("flatpak");
    reveal_strlit("snap");
    reveal_strlit("cab");
    reveal_strlit("cpio");
    reveal_strlit("ar");
    reveal_strlit("tgz");
    reveal_strlit("tbz2");
    reveal_strlit("txz");
    reveal_strlit("ttf");
    reveal_strlit("otf");
    reveal_strlit("woff");
    reveal_strlit("woff2");
    reveal_strlit("eot");
    reveal_strlit("exe");
    reveal_strlit("msi");
    reveal_strlit("bin");
    reveal_strlit("appimage");
    reveal_strlit("run");
    reveal_strlit("dmg");
    reveal_strlit("pkg");
    reveal_strlit("so");
    reveal_strlit("dll");
    reveal_strlit("dylib");
    reveal_strlit("iso");
    reveal_strlit("img");
    reveal_strlit("pem");
    reveal_strlit("crt");
    reveal_strlit("cer");
    reveal_strlit("p12");
    reveal_strlit("pfx");
    reveal_strlit("xpi");
    reveal_strlit("crx");
    reveal_strlit("fw");
    reveal_strlit("rom");
    reveal_strlit("bios");
    reveal_strlit("rss");
    reveal_strlit("atom");
    assert(
        "jpg"@.len() == 3 && "jpg"@[0] == 'j' && "jpg"@[1] == 'p' && "jpg"@[2] == 'g'
            && "jpeg"@.len() == 4 && "jpeg"@[0] == 'j' && "jpeg"@[1] == 'p' && "jpeg"@[2] == 'e' && "jpeg"@[3] == 'g'
            && "png"@.len() == 3 && "png"@[0] == 'p' && "png"@[1] == 'n' && "png"@[2] == 'g'
            && "gif"@.len() == 3 && "gif"@[0] == 'g' && "gif"@[1] == 'i' && "gif"@[2] == 'f'
            && "svg"@.len() == 3 && "svg"@[0] == 's' && "svg"@[1] == 'v' && "svg"@[2] == 'g'
            && "webp"@.len() == 4 && "webp"@[0] == 'w' && "webp"@[1] == 'e' && "webp"@[2] == 'b' && "webp"@[3] == 'p'
            && "bmp"@.len() == 3 && "bmp"@[0] == 'b' && "bmp"@[1] == 'm' && "bmp"@[2] == 'p'
            && "ico"@.len() == 3 && "ico"@[0] == 'i' && "ico"@[1] == 'c' && "ico"@[2] == 'o'
            && "tiff"@.len() == 4 && "tiff"@[0] == 't' && "tiff"@[1] == 'i' && "tiff"@[2] == 'f' && "tiff"@[3] == 'f'
            && "tif"@.len() == 3 && "tif"@[0] == 't' && "tif"@[1] == 'i' && "tif"@[2] == 'f'
            && "heic"@.len() == 4 && "heic"@[0] == 'h' && "heic"@[1] == 'e' && "heic"@[2] == 'i' && "heic"@[3] == 'c'
            && "heif"@.len() == 4 && "heif"@[0] == 'h' && "heif"@[1] == 'e' && "heif"@[2] == 'i' && "heif"@[3] == 'f'
            && "avif"@.len() == 4 && "avif"@[0] == 'a' && "avif"@[1] == 'v' && "avif"@[2] == 'i' && "avif"@[3] == 'f'
            && "raw"@.len() == 3 && "raw"@[0] == 'r' && "raw"@[1] == 'a' && "raw"@[2] == 'w'
            && "cr2"@.len() == 3 && "cr2"@[0] == 'c' && "cr2"@[1] == 'r' && "cr2"@[2] == '2'
            && "nef"@.len() == 3 && "nef"@[0] == 'n' && "nef"@[1] == 'e' && "nef"@[2] == 'f'
            && "psd"@.len() == 3 && "psd"@[0] == 'p' && "psd"@[1] == 's' && "psd"@[2] == 'd'
            && "xcf"@.len() == 3 && "xcf"@[0] == 'x' && "xcf"@[1] == 'c' && "xcf"@[2] == 'f'
            && "mp3"@.len() == 3 && "mp3"@[0] == 'm' && "mp3"@[1] == 'p' && "mp3"@[2] == '3'
            && "flac"@.len() == 4 && "flac"@[0] == 'f' && "flac"@[1] == 'l' && "flac"@[2] == 'a' && "flac"@[3] == 'c'
            && "ogg"@.len() == 3 && "ogg"@[0] == 'o' && "ogg"@[1] == 'g' && "ogg"@[2] == 'g'
            && "oga"@.len() == 3 && "oga"@[0] == 'o' && "oga"@[1] == 'g' && "oga"@[2] == 'a'
            && "wav"@.len() == 3 && "wav"@[0] == 'w' && "wav"@[1] == 'a' && "wav"@[2] == 'v'
            && "aac"@.len() == 3 && "aac"@[0] == 'a' && "aac"@[1] == 'a' && "aac"@[2] == 'c'
            && "wma"@.len() == 3 && "wma"@[0] == 'w' && "wma"@[1] == 'm' && "wma"@[2] == 'a'
            && "m4a"@.len() == 3 && "m4a"@[0] == 'm' && "m4a"@[1] == '4' && "m4a"@[2] == 'a'
            && "opus"@.len() == 4 && "opus"@[0] == 'o' && "opus"@[1] == 'p' && "opus"@[2] == 'u' && "opus"@[3] == 's'
            && "aiff"@.len() == 4 && "aiff"@[0] == 'a' && "aiff"@[1] == 'i' && "aiff"@[2] == 'f' && "aiff"@[3] == 'f'
            && "mid"@.len() == 3 && "mid"@[0] == 'm' && "mid"@[1] == 'i' && "mid"@[2] == 'd'
            && "midi"@.len() == 4 && "midi"@[0] == 'm' && "midi"@[1] == 'i' && "midi"@[2] == 'd' && "midi"@[3] == 'i'
            && "ac3"@.len() == 3 && "ac3"@[0] == 'a' && "ac3"@[1] == 'c' && "ac3"@[2] == '3'
            && "mp4"@.len() == 3 && "mp4"@[0] == 'm' && "mp4"@[1] == 'p' && "mp4"@[2] == '4'
            && "mkv"@.len() == 3 && "mkv"@[0] == 'm' && "mkv"@[1] == 'k' && "mkv"@[2] == 'v'
            && "avi"@.len() == 3 && "avi"@[0] == 'a' && "avi"@[1] == 'v' && "avi"@[2] == 'i'
            && "webm"@.len() == 4 && "webm"@[0] == 'w' && "webm"@[1] == 'e' && "webm"@[2] == 'b' && "webm"@[3] == 'm'
            && "mov"@.len() == 3 && "mov"@[0] == 'm' && "mov"@[1] == 'o' && "mov"@[2] == 'v'
            && "wmv"@.len() == 3 && "wmv"@[0] == 'w' && "wmv"@[1] == 'm' && "wmv"@[2] == 'v'
            && "flv"@.len() == 3 && "flv"@[0] == 'f' && "flv"@[1] == 'l' && "flv"@[2] == 'v'
            && "m4v"@.len() == 3 && "m4v"@[0] == 'm' && "m4v"@[1] == '4' && "m4v"@[2] == 'v'
            && "mpg"@.len() == 3 && "mpg"@[0] == 'm' && "mpg"@[1] == 'p' && "mpg"@[2] == 'g'
            && "mpeg"@.len() == 4 && "mpeg"@[0] == 'm' && "mpeg"@[1] == 'p' && "mpeg"@[2] == 'e' && "mpeg"@[3] == 'g'
            && "3gp"@.len() == 3 && "3gp"@[0] == '3' && "3gp"@[1] == 'g' && "3gp"@[2] == 'p'
            && "ogv"@.len() == 3 && "ogv"@[0] == 'o' && "ogv"@[1] == 'g' && "ogv"@[2] == 'v'
            && "pdf"@.len() == 3 && "pdf"@[0] == 'p' && "pdf"@[1] == 'd' && "pdf"@[2] == 'f'
            && "doc"@.len() == 3 && "doc"@[0] == 'd' && "doc"@[1] == 'o' && "doc"@[2] == 'c'
            && "docx"@.len() == 4 && "docx"@[0] == 'd' && "docx"@[1] == 'o' && "docx"@[2] == 'c' && "docx"@[3] == 'x'
            && "odt"@.len() == 3 && "odt"@[0] == 'o' && "odt"@[1] == 'd' && "odt"@[2] == 't'
            && "rtf"@.len() == 3 && "rtf"@[0] == 'r' && "rtf"@[1] == 't' && "rtf"@[2] == 'f'
            && "epub"@.len() == 4 && "epub"@[0] == 'e' && "epub"@[1] == 'p' && "epub"@[2] == 'u' && "epub"@[3] == 'b'
            && "djvu"@.len() == 4 && "djvu"@[0] == 'd' && "djvu"@[1] == 'j' && "djvu"@[2] == 'v' && "djvu"@[3] == 'u'
            && "pages"@.len() == 5 && "pages"@[0] == 'p' && "pages"@[1] == 'a' && "pages"@[2] == 'g' && "pages"@[3] == 'e' && "pages"@[4] == 's'
            && "md"@.len() == 2 && "md"@[0] == 'm' && "md"@[1] == 'd'
            && "markdown"@.len() == 8 && "markdown"@[0] == 'm' && "markdown"@[1] == 'a' && "markdown"@[2] == 'r' && "markdown"@[3] == 'k' && "markdown"@[4] == 'd' && "markdown"@[5] == 'o' && "markdown"@[6] == 'w' && "markdown"@[7] == 'n'
            && "rst"@.len() == 3 && "rst"@[0] == 'r' && "rst"@[1] == 's' && "rst"@[2] == 't'
            && "adoc"@.len() == 4 && "adoc"@[0] == 'a' && "adoc"@[1] == 'd' && "adoc"@[2] == 'o' && "adoc"@[3] == 'c'
            && "tex"@.len() == 3 && "tex"@[0] == 't' && "tex"@[1] == 'e' && "tex"@[2] == 'x'
            && "latex"@.len() == 5 && "latex"@[0] == 'l' && "latex"@[1] == 'a' && "latex"@[2] == 't' && "latex"@[3] == 'e' && "latex"@[4] == 'x'
            && "xls"@.len() == 3 && "xls"@[0] == 'x' && "xls"@[1] == 'l' && "xls"@[2] == 's'
            && "xlsx"@.len() == 4 && "xlsx"@[0] == 'x' && "xlsx"@[1] == 'l' && "xlsx"@[2] == 's' && "xlsx"@[3] == 'x'
            && "ods"@.len() == 3 && "ods"@[0] == 'o' && "ods"@[1] == 'd' && "ods"@[2] == 's'
            && "csv"@.len() == 3 && "csv"@[0] == 'c' && "csv"@[1] == 's' && "csv"@[2] == 'v'
            && "tsv"@.len() == 3 && "tsv"@[0] == 't' && "tsv"@[1] == 's' && "tsv"@[2] == 'v'
            && "numbers"@.len() == 7 && "numbers"@[0] == 'n' && "numbers"@[1] == 'u' && "numbers"@[2] == 'm' && "numbers"@[3] == 'b' && "numbers"@[4] == 'e' && "numbers"@[5] == 'r' && "numbers"@[6] == 's'
            && "ppt"@.len() == 3 && "ppt"@[0] == 'p' && "ppt"@[1] == 'p' && "ppt"@[2] == 't'
            && "pptx"@.len() == 4 && "pptx"@[0] == 'p' && "pptx"@[1] == 'p' && "pptx"@[2] == 't' && "pptx"@[3] == 'x'
            && "odp"@.len() == 3 && "odp"@[0] == 'o' && "odp"@[1] == 'd' && "odp"@[2] == 'p'
            && "key"@.len() == 3 && "key"@[0] == 'k' && "key"@[1] == 'e' && "key"@[2] == 'y'
            && "odg"@.len() == 3 && "odg"@[0] == 'o' && "odg"@[1] == 'd' && "odg"@[2] == 'g'
            && "vsd"@.len() == 3 && "vsd"@[0] == 'v' && "vsd"@[1] == 's' && "vsd"@[2] == 'd'
            && "vsdx"@.len() == 4 && "vsdx"@[0] == 'v' && "vsdx"@[1] == 's' && "vsdx"@[2] == 'd' && "vsdx"@[3] == 'x'
            && "dia"@.len() == 3 && "dia"@[0] == 'd' && "dia"@[1] == 'i' && "dia"@[2] == 'a'
            && "zip"@.len() == 3 && "zip"@[0] == 'z' && "zip"@[1] == 'i' && "zip"@[2] == 'p'
            && "tar"@.len() == 3 && "tar"@[0] == 't' && "tar"@[1] == 'a' && "tar"@[2] == 'r'
            && "gz"@.len() == 2 && "gz"@[0] == 'g' && "gz"@[1] == 'z'
            && "bz2"@.len() == 3 && "bz2"@[0] == 'b' && "bz2"@[1] == 'z' && "bz2"@[2] == '2'
            && "xz"@.len() == 2 && "xz"@[0] == 'x' && "xz"@[1] == 'z'
            && "zst"@.len() == 3 && "zst"@[0] == 'z' && "zst"@[1] == 's' && "zst"@[2] == 't'
            && "lz4"@.len() == 3 && "lz4"@[0] == 'l' && "lz4"@[1] == 'z' && "lz4"@[2] == '4'
            && "lzma"@.len() == 4 && "lzma"@[0] == 'l' && "lzma"@[1] == 'z' && "lzma"@[2] == 'm' && "lzma"@[3] == 'a'
            && "7z"@.len() == 2 && "7z"@[0] == '7' && "7z"@[1] == 'z'
            && "rar"@.len() == 3 && "rar"@[0] == 'r' && "rar"@[1] == 'a' && "rar"@[2] == 'r'
            && "deb"@.len() == 3 && "deb"@[0] == 'd' && "deb"@[1] == 'e' && "deb"@[2] == 'b'
            && "rpm"@.len() == 3 && "rpm"@[0] == 'r' && "rpm"@[1] == 'p' && "rpm"@[2] == 'm'
            && "flatpak"@.len() == 7 && "flatpak"@[0] == 'f' && "flatpak"@[1] == 'l' && "flatpak"@[2] == 'a' && "flatpak"@[3] == 't' && "flatpak"@[4] == 'p' && "flatpak"@[5] == 'a' && "flatpak"@[6] == 'k'
            && "snap"@.len() == 4 && "snap"@[0] == 's' && "snap"@[1] == 'n' && "snap"@[2] == 'a' && "snap"@[3] == 'p'
            && "cab"@.len() == 3 && "cab"@[0] == 'c' && "cab"@[1] == 'a' && "cab"@[2] == 'b'
            && "cpio"@.len() == 4 && "cpio"@[0] == 'c' && "cpio"@[1] == 'p' && "cpio"@[2] == 'i' && "cpio"@[3] == 'o'
            && "ar"@.len() == 2 && "ar"@[0] == 'a' && "ar"@[1] == 'r'
            && "tgz"@.len() == 3 && "tgz"@[0] == 't' && "tgz"@[1] == 'g' && "tgz"@[2] == 'z'
            && "tbz2"@.len() == 4 && "tbz2"@[0] == 't' && "tbz2"@[1] == 'b' && "tbz2"@[2] == 'z' && "tbz2"@[3] == '2'
            && "txz"@.len() == 3 && "txz"@[0] == 't' && "txz"@[1] == 'x' && "txz"@[2] == 'z'
            && "ttf"@.len() == 3 && "ttf"@[0] == 't' && "ttf"@[1] == 't' && "ttf"@[2] == 'f'
            && "otf"@.len() == 3 && "otf"@[0] == 'o' && "otf"@[1] == 't' && "otf"@[2] == 'f'
            && "woff"@.len() == 4 && "woff"@[0] == 'w' && "woff"@[1] == 'o' && "woff"@[2] == 'f' && "woff"@[3] == 'f'
            && "woff2"@.len() == 5 && "woff2"@[0] == 'w' && "woff2"@[1] == 'o' && "woff2"@[2] == 'f' && "woff2"@[3] == 'f' && "woff2"@[4] == '2'
            && "eot"@.len() == 3 && "eot"@[0] == 'e' && "eot"@[1] == 'o' && "eot"@[2] == 't'
            && "exe"@.len() == 3 && "exe"@[0] == 'e' && "exe"@[1] == 'x' && "exe"@[2] == 'e'
            && "msi"@.len() == 3 && "msi"@[0] == 'm' && "msi"@[1] == 's' && "msi"@[2] == 'i'
            && "bin"@.len() == 3 && "bin"@[0] == 'b' && "bin"@[1] == 'i' && "bin"@[2] == 'n'
            && "appimage"@.len() == 8 && "appimage"@[0] == 'a' && "appimage"@[1] == 'p' && "appimage"@[2] == 'p' && "appimage"@[3] == 'i' && "appimage"@[4] == 'm' && "appimage"@[5] == 'a' && "appimage"@[6] == 'g' && "appimage"@[7] == 'e'
            && "run"@.len() == 3 && "run"@[0] == 'r' && "run"@[1] == 'u' && "run"@[2] == 'n'
            && "dmg"@.len() == 3 && "dmg"@[0] == 'd' && "dmg"@[1] == 'm' && "dmg"@[2] == 'g'
            && "pkg"@.len() == 3 && "pkg"@[0] == 'p' && "pkg"@[1] == 'k' && "pkg"@[2] == 'g'
            && "so"@.len() == 2 && "so"@[0] == 's' && "so"@[1] == 'o'
            && "dll"@.len() == 3 && "dll"@[0] == 'd' && "dll"@[1] == 'l' && "dll"@[2] == 'l'
            && "dylib"@.len() == 5 && "dylib"@[0] == 'd' && "dylib"@[1] == 'y' && "dylib"@[2] == 'l' && "dylib"@[3] == 'i' && "dylib"@[4] == 'b'
            && "iso"@.len() == 3 && "iso"@[0] == 'i' && "iso"@[1] == 's' && "iso"@[2] == 'o'
            && "img"@.len() == 3 && "img"@[0] == 'i' && "img"@[1] == 'm' && "img"@[2] == 'g'
            && "pem"@.len() == 3 && "pem"@[0] == 'p' && "pem"@[1] == 'e' && "pem"@[2] == 'm'
            && "crt"@.len() == 3 && "crt"@[0] == 'c' && "crt"@[1] == 'r' && "crt"@[2] == 't'
            && "cer"@.len() == 3 && "cer"@[0] == 'c' && "cer"@[1] == 'e' && "cer"@[2] == 'r'
            && "p12"@.len() == 3 && "p12"@[0] == 'p' && "p12"@[1] == '1' && "p12"@[2] == '2'
            && "pfx"@.len() == 3 && "pfx"@[0] == 'p' && "pfx"@[1] == 'f' && "pfx"@[2] == 'x'
            && "xpi"@.len() == 3 && "xpi"@[0] == 'x' && "xpi"@[1] == 'p' && "xpi"@[2] == 'i'
            && "crx"@.len() == 3 && "crx"@[0] == 'c' && "crx"@[1] == 'r' && "crx"@[2] == 'x'
            && "fw"@.len() == 2 && "fw"@[0] == 'f' && "fw"@[1] == 'w'
            && "rom"@.len() == 3 && "rom"@[0] == 'r' && "rom"@[1] == 'o' && "rom"@[2] == 'm'
            && "bios"@.len() == 4 && "bios"@[0] == 'b' && "bios"@[1] == 'i' && "bios"@[2] == 'o' && "bios"@[3] == 's'
            && "rss"@.len() == 3 && "rss"@[0] == 'r' && "rss"@[1] == 's' && "rss"@[2] == 's'
            && "atom"@.len() == 4 && "atom"@[0] == 'a' && "atom"@[1] == 't' && "atom"@[2] == 'o' && "atom"@[3] == 'm'
    );
}

/// Every contact extension of the table gets its icon.
proof fn lemma_icons_contact()
    ensures
        icon_for_extension("vcf"@) == "x-office-address-book-symbolic"@,
        icon_for_extension("vcard"@) == "x-office-address-book-symbolic"@,
{
    reveal_strlit("jpg");
    reveal_strlit("jpeg");
    reveal_strlit("png");
    reveal_strlit("gif");
    reveal_strlit("svg");
    reveal_strlit("webp");
    reveal_strlit("bmp");
    reveal_strlit("ico");
    reveal_strlit("tiff");
    reveal_strlit("tif");
    reveal_strlit("heic");
    reveal_strlit("heif");
    reveal_strlit("avif");
    reveal_strlit("raw");
    reveal_strlit("cr2");
    reveal_strlit("nef");
    reveal_strlit("psd");
    reveal_strlit("xcf");
    reveal_strlit("mp3");
    reveal_strlit("flac");
    reveal_strlit("ogg");
    reveal_strlit("oga");
    reveal_strlit("wav");
    reveal_strlit("aac");
    reveal_strlit("wma");
    reveal_strlit("m4a");
    reveal_strlit("opus");
    reveal_strlit("aiff");
    reveal_strlit("mid");
    reveal_strlit("midi");
    reveal_strlit("ac3");
    reveal_strlit("mp4");
    reveal_strlit("mkv");
    reveal_strlit("avi");
    reveal_strlit("webm");
    reveal_strlit("mov");
    reveal_strlit("wmv");
    reveal_strlit("flv");
    reveal_strlit("m4v");
    reveal_strlit("mpg");
    reveal_strlit("mpeg");
    reveal_strlit("3gp");
    reveal_strlit("ogv");
    reveal_strlit("pdf");
    reveal_strlit("doc");
    reveal_strlit("docx");
    reveal_strlit("odt");
    reveal_strlit("rtf");
    reveal_strlit("epub");
    reveal_strlit("djvu");
    reveal_strlit("pages");
    reveal_strlit("md");
    reveal_strlit("markdown");
    reveal_strlit("rst");
    reveal_strlit("adoc");
    reveal_strlit("tex");
    reveal_strlit("latex");
    reveal_strlit("xls");
    reveal_strlit("xlsx");
    reveal_strlit("ods");
    reveal_strlit("csv");
    reveal_strlit("tsv");
    reveal_strlit("numbers");
    reveal_strlit("ppt");
    reveal_strlit("pptx");
    reveal_strlit("odp");
    reveal_strlit("key");
    reveal_strlit("odg");
    reveal_strlit("vsd");
    reveal_strlit("vsdx");
    reveal_strlit("dia");
    reveal_strlit("zip");
    reveal_strlit("tar");
    reveal_strlit("gz");
    reveal_strlit("bz2");
    reveal_strlit("xz");
    reveal_strlit("zst");
    reveal_strlit("lz4");
    reveal_strlit("lzma");
    reveal_strlit("7z");
    reveal_strlit("rar");
    reveal_strlit("deb");
    reveal_strlit("rpm");
    reveal_strlit("flatpak");
    reveal_strlit("snap");
    reveal_strlit("cab");
    reveal_strlit("cpio");
    reveal_strlit("ar");
    reveal_strlit("tgz");
    reveal_strlit("tbz2");
    reveal_strlit("txz");
    reveal_strlit("ttf");
    reveal_strlit("otf");
    reveal_strlit("woff");
    reveal_strlit("woff2");
    reveal_strlit("eot");
    reveal_strlit("exe");
    reveal_strlit("msi");
    reveal_strlit("bin");
    reveal_strlit("appimage");
    reveal_strlit("run");
    reveal_strlit("dmg");
    reveal_strlit("pkg");
    reveal_strlit("so");
    reveal_strlit("dll");
    reveal_strlit("dylib");
    reveal_strlit("iso");
    reveal_strlit("img");
    reveal_strlit("pem");
    reveal_strlit("crt");
    reveal_strlit("cer");
    reveal_strlit("p12");
    reveal_strlit("pfx");
    reveal_strlit("xpi");
    reveal_strlit("crx");
    reveal_strlit("fw");
    reveal_strlit("rom");
    reveal_strlit("bios");
    reveal_strlit("rss");
    reveal_strlit("atom");
    reveal_strlit("vcf");
    reveal_strlit("vcard");
    assert(
        "jpg"@.len() == 3 && "jpg"@[0] == 'j' && "jpg"@[1] == 'p' && "jpg"@[2] == 'g'
            && "jpeg"@.len() == 4 && "jpeg"@[0] == 'j' && "jpeg"@[1] == 'p' && "jpeg"@[2] == 'e' && "jpeg"@[3] == 'g'
            && "png"@.len() == 3 && "png"@[0] == 'p' && "png"@[1] == 'n' && "png"@[2] == 'g'
            && "gif"@.len() == 3 && "gif"@[0] == 'g' && "gif"@[1] == 'i' && "gif"@[2] == 'f'
            && "svg"@.len() == 3 && "svg"@[0] == 's' && "svg"@[1] == 'v' && "svg"@[2] == 'g'
            && "webp"@.len() == 4 && "webp"@[0] == 'w' && "webp"@[1] == 'e' && "webp"@[2] == 'b' && "webp"@[3] == 'p'
            && "bmp"@.len() == 3 && "bmp"@[0] == 'b' && "bmp"@[1] == 'm' && "bmp"@[2] == 'p'
            && "ico"@.len() == 3 && "ico"@[0] == 'i' && "ico"@[1] == 'c' && "ico"@[2] == 'o'
            && "tiff"@.len() == 4 && "tiff"@[0] == 't' && "tiff"@[1] == 'i' && "tiff"@[2] == 'f' && "tiff"@[3] == 'f'
            && "tif"@.len() == 3 && "tif"@[0] == 't' && "tif"@[1] == 'i' && "tif"@[2] == 'f'
            && "heic"@.len() == 4 && "heic"@[0] == 'h' && "heic"@[1] == 'e' && "heic"@[2] == 'i' && "heic"@[3] == 'c'
            && "heif"@.len() == 4 && "heif"@[0] == 'h' && "heif"@[1] == 'e' && "heif"@[2] == 'i' && "heif"@[3] == 'f'
            && "avif"@.len() == 4 && "avif"@[0] == 'a' && "avif"@[1] == 'v' && "avif"@[2] == 'i' && "avif"@[3] == 'f'
            && "raw"@.len() == 3 && "raw"@[0] == 'r' && "raw"@[1] == 'a' && "raw"@[2] == 'w'
            && "cr2"@.len() == 3 && "cr2"@[0] == 'c' && "cr2"@[1] == 'r' && "cr2"@[2] == '2'
            && "nef"@.len() == 3 && "nef"@[0] == 'n' && "nef"@[1] == 'e' && "nef"@[2] == 'f'
            && "psd"@.len() == 3 && "psd"@[0] == 'p' && "psd"@[1] == 's' && "psd"@[2] == 'd'
            && "xcf"@.len() == 3 && "xcf"@[0] == 'x' && "xcf"@[1] == 'c' && "xcf"@[2] == 'f'
            && "mp3"@.len() == 3 && "mp3"@[0] == 'm' && "mp3"@[1] == 'p' && "mp3"@[2] == '3'
            && "flac"@.len() == 4 && "flac"@[0] == 'f' && "flac"@[1] == 'l' && "flac"@[2] == 'a' && "flac"@[3] == 'c'
            && "ogg"@.len() == 3 && "ogg"@[0] == 'o' && "ogg"@[1] == 'g' && "ogg"@[2] == 'g'
            && "oga"@.len() == 3 && "oga"@[0] == 'o' && "oga"@[1] == 'g' && "oga"@[2] == 'a'
            && "wav"@.len() == 3 && "wav"@[0] == 'w' && "wav"@[1] == 'a' && "wav"@[2] == 'v'
            && "aac"@.len() == 3 && "aac"@[0] == 'a' && "aac"@[1] == 'a' && "aac"@[2] == 'c'
            && "wma"@.len() == 3 && "wma"@[0] == 'w' && "wma"@[1] == 'm' && "wma"@[2] == 'a'
            && "m4a"@.len() == 3 && "m4a"@[0] == 'm' && "m4a"@[1] == '4' && "m4a"@[2] == 'a'
            && "opus"@.len() == 4 && "opus"@[0] == 'o' && "opus"@[1] == 'p' && "opus"@[2] == 'u' && "opus"@[3] == 's'
            && "aiff"@.len() == 4 && "aiff"@[0] == 'a' && "aiff"@[1] == 'i' && "aiff"@[2] == 'f' && "aiff"@[3] == 'f'
            && "mid"@.len() == 3 && "mid"@[0] == 'm' && "mid"@[1] == 'i' && "mid"@[2] == 'd'
            && "midi"@.len() == 4 && "midi"@[0] == 'm' && "midi"@[1] == 'i' && "midi"@[2] == 'd' && "midi"@[3] == 'i'
            && "ac3"@.len() == 3 && "ac3"@[0] == 'a' && "ac3"@[1] == 'c' && "ac3"@[2] == '3'
            && "mp4"@.len() == 3 && "mp4"@[0] == 'm' && "mp4"@[1] == 'p' && "mp4"@[2] == '4'
            && "mkv"@.len() == 3 && "mkv"@[0] == 'm' && "mkv"@[1] == 'k' && "mkv"@[2] == 'v'
            && "avi"@.len() == 3 && "avi"@[0] == 'a' && "avi"@[1] == 'v' && "avi"@[2] == 'i'
            && "webm"@.len() == 4 && "webm"@[0] == 'w' && "webm"@[1] == 'e' && "webm"@[2] == 'b' && "webm"@[3] == 'm'
            && "mov"@.len() == 3 && "mov"@[0] == 'm' && "mov"@[1] == 'o' && "mov"@[2] == 'v'
            && "wmv"@.len() == 3 && "wmv"@[0] == 'w' && "wmv"@[1] == 'm' && "wmv"@[2] == 'v'
            && "flv"@.len() == 3 && "flv"@[0] == 'f' && "flv"@[1] == 'l' && "flv"@[2] == 'v'
            && "m4v"@.len() == 3 && "m4v"@[0] == 'm' && "m4v"@[1] == '4' && "m4v"@[2] == 'v'
            && "mpg"@.len() == 3 && "mpg"@[0] == 'm' && "mpg"@[1] == 'p' && "mpg"@[2] == 'g'
            && "mpeg"@.len() == 4 && "mpeg"@[0] == 'm' && "mpeg"@[1] == 'p' && "mpeg"@[2] == 'e' && "mpeg"@[3] == 'g'
            && "3gp"@.len() == 3 && "3gp"@[0] == '3' && "3gp"@[1] == 'g' && "3gp"@[2] == 'p'
            && "ogv"@.len() == 3 && "ogv"@[0] == 'o' && "ogv"@[1] == 'g' && "ogv"@[2] == 'v'
            && "pdf"@.len() == 3 && "pdf"@[0] == 'p' && "pdf"@[1] == 'd' && "pdf"@[2] == 'f'
            && "doc"@.len() == 3 && "doc"@[0] == 'd' && "doc"@[1] == 'o' && "doc"@[2] == 'c'
            && "docx"@.len() == 4 && "docx"@[0] == 'd' && "docx"@[1] == 'o' && "docx"@[2] == 'c' && "docx"@[3] == 'x'
            && "odt"@.len() == 3 && "odt"@[0] == 'o' && "odt"@[1] == 'd' && "odt"@[2] == 't'
            && "rtf"@.len() == 3 && "rtf"@[0] == 'r' && "rtf"@[1] == 't' && "rtf"@[2] == 'f'
            && "epub"@.len() == 4 && "epub"@[0] == 'e' && "epub"@[1] == 'p' && "epub"@[2] == 'u' && "epub"@[3] == 'b'
            && "djvu"@.len() == 4 && "djvu"@[0] == 'd' && "djvu"@[1] == 'j' && "djvu"@[2] == 'v' && "djvu"@[3] == 'u'
            && "pages"@.len() == 5 && "pages"@[0] == 'p' && "pages"@[1] == 'a' && "pages"@[2] == 'g' && "pages"@[3] == 'e' && "pages"@[4] == 's'
            && "md"@.len() == 2 && "md"@[0] == 'm' && "md"@[1] == 'd'
            && "markdown"@.len() == 8 && "markdown"@[0] == 'm' && "markdown"@[1] == 'a' && "markdown"@[2] == 'r' && "markdown"@[3] == 'k' && "markdown"@[4] == 'd' && "markdown"@[5] == 'o' && "markdown"@[6] == 'w' && "markdown"@[7] == 'n'
            && "rst"@.len() == 3 && "rst"@[0] == 'r' && "rst"@[1] == 's' && "rst"@[2] == 't'
            && "adoc"@.len() == 4 && "adoc"@[0] == 'a' && "adoc"@[1] == 'd' && "adoc"@[2] == 'o' && "adoc"@[3] == 'c'
            && "tex"@.len() == 3 && "tex"@[0] == 't' && "tex"@[1] == 'e' && "tex"@[2] == 'x'
            && "latex"@.len() == 5 && "latex"@[0] == 'l' && "latex"@[1] == 'a' && "latex"@[2] == 't' && "latex"@[3] == 'e' && "latex"@[4] == 'x'
            && "xls"@.len() == 3 && "xls"@[0] == 'x' && "xls"@[1] == 'l' && "xls"@[2] == 's'
            && "xlsx"@.len() == 4 && "xlsx"@[0] == 'x' && "xlsx"@[1] == 'l' && "xlsx"@[2] == 's' && "xlsx"@[3] == 'x'
            && "ods"@.len() == 3 && "ods"@[0] == 'o' && "ods"@[1] == 'd' && "ods"@[2] == 's'
            && "csv"@.len() == 3 && "csv"@[0] == 'c' && "csv"@[1] == 's' && "csv"@[2] == 'v'
            && "tsv"@.len() == 3 && "tsv"@[0] == 't' && "tsv"@[1] == 's' && "tsv"@[2] == 'v'
            && "numbers"@.len() == 7 && "numbers"@[0] == 'n' && "numbers"@[1] == 'u' && "numbers"@[2] == 'm' && "numbers"@[3] == 'b' && "numbers"@[4] == 'e' && "numbers"@[5] == 'r' && "numbers"@[6] == 's'
            && "ppt"@.len() == 3 && "ppt"@[0] == 'p' && "ppt"@[1] == 'p' && "ppt"@[2] == 't'
            && "pptx"@.len() == 4 && "pptx"@[0] == 'p' && "pptx"@[1] == 'p' && "pptx"@[2] == 't' && "pptx"@[3] == 'x'
            && "odp"@.len() == 3 && "odp"@[0] == 'o' && "odp"@[1] == 'd' && "odp"@[2] == 'p'
            && "key"@.len() == 3 && "key"@[0] == 'k' && "key"@[1] == 'e' && "key"@[2] == 'y'
            && "odg"@.len() == 3 && "odg"@[0] == 'o' && "odg"@[1] == 'd' && "odg"@[2] == 'g'
            && "vsd"@.len() == 3 && "vsd"@[0] == 'v' && "vsd"@[1] == 's' && "vsd"@[2] == 'd'
            && "vsdx"@.len() == 4 && "vsdx"@[0] == 'v' && "vsdx"@[1] == 's' && "vsdx"@[2] == 'd' && "vsdx"@[3] == 'x'
            && "dia"@.len() == 3 && "dia"@[0] == 'd' && "dia"@[1] == 'i' && "dia"@[2] == 'a'
            && "zip"@.len() == 3 && "zip"@[0] == 'z' && "zip"@[1] == 'i' && "zip"@[2] == 'p'
            && "tar"@.len() == 3 && "tar"@[0] == 't' && "tar"@[1] == 'a' && "tar"@[2] == 'r'
            && "gz"@.len() == 2 && "gz"@[0] == 'g' && "gz"@[1] == 'z'
            && "bz2"@.len() == 3 && "bz2"@[0] == 'b' && "bz2"@[1] == 'z' && "bz2"@[2] == '2'
            && "xz"@.len() == 2 && "xz"@[0] == 'x' && "xz"@[1] == 'z'
            && "zst"@.len() == 3 && "zst"@[0] == 'z' && "zst"@[1] == 's' && "zst"@[2] == 't'
            && "lz4"@.len() == 3 && "lz4"@[0] == 'l' && "lz4"@[1] == 'z' && "lz4"@[2] == '4'
            && "lzma"@.len() == 4 && "lzma"@[0] == 'l' && "lzma"@[1] == 'z' && "lzma"@[2] == 'm' && "lzma"@[3] == 'a'
            && "7z"@.len() == 2 && "7z"@[0] == '7' && "7z"@[1] == 'z'
            && "rar"@.len() == 3 && "rar"@[0] == 'r' && "rar"@[1] == 'a' && "rar"@[2] == 'r'
            && "deb"@.len() == 3 && "deb"@[0] == 'd' && "deb"@[1] == 'e' && "deb"@[2] == 'b'
            && "rpm"@.len() == 3 && "rpm"@[0] == 'r' && "rpm"@[1] == 'p' && "rpm"@[2] == 'm'
            && "flatpak"@.len() == 7 && "flatpak"@[0] == 'f' && "flatpak"@[1] == 'l' && "flatpak"@[2] == 'a' && "flatpak"@[3] == 't' && "flatpak"@[4] == 'p' && "flatpak"@[5] == 'a' && "flatpak"@[6] == 'k'
            && "snap"@.len() == 4 && "snap"@[0] == 's' && "snap"@[1] == 'n' && "snap"@[2] == 'a' && "snap"@[3] == 'p'
            && "cab"@.len() == 3 && "cab"@[0] == 'c' && "cab"@[1] == 'a' && "cab"@[2] == 'b'
            && "cpio"@.len() == 4 && "cpio"@[0] == 'c' && "cpio"@[1] == 'p' && "cpio"@[2] == 'i' && "cpio"@[3] == 'o'
            && "ar"@.len() == 2 && "ar"@[0] == 'a' && "ar"@[1] == 'r'
            && "tgz"@.len() == 3 && "tgz"@[0] == 't' && "tgz"@[1] == 'g' && "tgz"@[2] == 'z'
            && "tbz2"@.len() == 4 && "tbz2"@[0] == 't' && "tbz2"@[1] == 'b' && "tbz2"@[2] == 'z' && "tbz2"@[3] == '2'
            && "txz"@.len() == 3 && "txz"@[0] == 't' && "txz"@[1] == 'x' && "txz"@[2] == 'z'
            && "ttf"@.len() == 3 && "ttf"@[0] == 't' && "ttf"@[1] == 't' && "ttf"@[2] == 'f'
            && "otf"@.len() == 3 && "otf"@[0] == 'o' && "otf"@[1] == 't' && "otf"@[2] == 'f'
            && "woff"@.len() == 4 && "woff"@[0] == 'w' && "woff"@[1] == 'o' && "woff"@[2] == 'f' && "woff"@[3] == 'f'
            && "woff2"@.len() == 5 && "woff2"@[0] == 'w' && "woff2"@[1] == 'o' && "woff2"@[2] == 'f' && "woff2"@[3] == 'f' && "woff2"@[4] == '2'
            && "eot"@.len() == 3 && "eot"@[0] == 'e' && "eot"@[1] == 'o' && "eot"@[2] == 't'
            && "exe"@.len() == 3 && "exe"@[0] == 'e' && "exe"@[1] == 'x' && "exe"@[2] == 'e'
            && "msi"@.len() == 3 && "msi"@[0] == 'm' && "msi"@[1] == 's' && "msi"@[2] == 'i'
            && "bin"@.len() == 3 && "bin"@[0] == 'b' && "bin"@[1] == 'i' && "bin"@[2] == 'n'
            && "appimage"@.len() == 8 && "appimage"@[0] == 'a' && "appimage"@[1] == 'p' && "appimage"@[2] == 'p' && "appimage"@[3] == 'i' && "appimage"@[4] == 'm' && "appimage"@[5] == 'a' && "appimage"@[6] == 'g' && "appimage"@[7] == 'e'
            && "run"@.len() == 3 && "run"@[0] == 'r' && "run"@[1] == 'u' && "run"@[2] == 'n'
            && "dmg"@.len() == 3 && "dmg"@[0] == 'd' && "dmg"@[1] == 'm' && "dmg"@[2] == 'g'
            && "pkg"@.len() == 3 && "pkg"@[0] == 'p' && "pkg"@[1] == 'k' && "pkg"@[2] == 'g'
            && "so"@.len() == 2 && "so"@[0] == 's' && "so"@[1] == 'o'
            && "dll"@.len() == 3 && "dll"@[0] == 'd' && "dll"@[1] == 'l' && "dll"@[2] == 'l'
            && "dylib"@.len() == 5 && "dylib"@[0] == 'd' && "dylib"@[1] == 'y' && "dylib"@[2] == 'l' && "dylib"@[3] == 'i' && "dylib"@[4] == 'b'
            && "iso"@.len() == 3 && "iso"@[0] == 'i' && "iso"@[1] == 's' && "iso"@[2] == 'o'
            && "img"@.len() == 3 && "img"@[0] == 'i' && "img"@[1] == 'm' && "img"@[2] == 'g'
            && "pem"@.len() == 3 && "pem"@[0] == 'p' && "pem"@[1] == 'e' && "pem"@[2] == 'm'
            && "crt"@.len() == 3 && "crt"@[0] == 'c' && "crt"@[1] == 'r' && "crt"@[2] == 't'
            && "cer"@.len() == 3 && "cer"@[0] == 'c' && "cer"@[1] == 'e' && "cer"@[2] == 'r'
            && "p12"@.len() == 3 && "p12"@[0] == 'p' && "p12"@[1] == '1' && "p12"@[2] == '2'
            && "pfx"@.len() == 3 && "pfx"@[0] == 'p' && "pfx"@[1] == 'f' && "pfx"@[2] == 'x'
            && "xpi"@.len() == 3 && "xpi"@[0] == 'x' && "xpi"@[1] == 'p' && "xpi"@[2] == 'i'
            && "crx"@.len() == 3 && "crx"@[0] == 'c' && "crx"@[1] == 'r' && "crx"@[2] == 'x'
            && "fw"@.len() == 2 && "fw"@[0] == 'f' && "fw"@[1] == 'w'
            && "rom"@.len() == 3 && "rom"@[0] == 'r' && "rom"@[1] == 'o' && "rom"@[2] == 'm'
            && "bios"@.len() == 4 && "bios"@[0] == 'b' && "bios"@[1] == 'i' && "bios"@[2] == 'o' && "bios"@[3] == 's'
            && "rss"@.len() == 3 && "rss"@[0] == 'r' && "rss"@[1] == 's' && "rss"@[2] == 's'
            && "atom"@.len() == 4 && "atom"@[0] == 'a' && "atom"@[1] == 't' && "atom"@[2] == 'o' && "atom"@[3] == 'm'
            && "vcf"@.len() == 3 && "vcf"@[0] == 'v' && "vcf"@[1] == 'c' && "vcf"@[2] == 'f'
            && "vcard"@.len() == 5 && "vcard"@[0] == 'v' && "vcard"@[1] == 'c' && "vcard"@[2] == 'a' && "vcard"@[3] == 'r' && "vcard"@[4] == 'd'
    );
}

/// Every calendar extension of the table gets its icon.
proof fn lemma_icons_calendar()
    ensures
        icon_for_extension("ics"@) == "x-office-calendar-symbolic"@,
        icon_for_extension("ical"@) == "x-office-calendar-symbolic"@,
{
    reveal_strlit("jpg");
    reveal_strlit("jpeg");
    reveal_strlit("png");
    reveal_strlit("gif");
    reveal_strlit("svg");
    reveal_strlit("webp");
    reveal_strlit("bmp");
    reveal_strlit("ico");
    reveal_strlit("tiff");
    reveal_strlit("tif");
    reveal_strlit("heic");
    reveal_strlit("heif");
    reveal_strlit("avif");
    reveal_strlit("raw");
    reveal_strlit("cr2");
    reveal_strlit("nef");
    reveal_strlit("psd");
    reveal_strlit("xcf");
    reveal_strlit("mp3");
    reveal_strlit("flac");
    reveal_strlit("ogg");
    reveal_strlit("oga");
    reveal_strlit("wav");
    reveal_strlit("aac");
    reveal_strlit("wma");
    reveal_strlit("m4a");
    reveal_strlit("opus");
    reveal_strlit("aiff");
    reveal_strlit("mid");
    reveal_strlit("midi");
    reveal_strlit("ac3");
    reveal_strlit("mp4");
    reveal_strlit("mkv");
    reveal_strlit("avi");
    reveal_strlit("webm");
    reveal_strlit("mov");
    reveal_strlit("wmv");
    reveal_strlit("flv");
    reveal_strlit("m4v");
    reveal_strlit("mpg");
    reveal_strlit("mpeg");
    reveal_strlit("3gp");
    reveal_strlit("ogv");
    reveal_strlit("pdf");
    reveal_strlit("doc");
    reveal_strlit("docx");
    reveal_strlit("odt");
    reveal_strlit("rtf");
    reveal_strlit("epub");
    reveal_strlit("djvu");
    reveal_strlit("pages");
    reveal_strlit("md");
    reveal_strlit("markdown");
    reveal_strlit("rst");
    reveal_strlit("adoc");
    reveal_strlit("tex");
    reveal_strlit("latex");
    reveal_strlit("xls");
    reveal_strlit("xlsx");
    reveal_strlit("ods");
    reveal_strlit("csv");
    reveal_strlit("tsv");
    reveal_strlit("numbers");
    reveal_strlit("ppt");
    reveal_strlit("pptx");
    reveal_strlit("odp");
    reveal_strlit("key");
    reveal_strlit("odg");
    reveal_strlit("vsd");
    reveal_strlit("vsdx");
    reveal_strlit("dia");
    reveal_strlit("zip");
    reveal_strlit("tar");
    reveal_strlit("gz");
    reveal_strlit("bz2");
    reveal_strlit("xz");
    reveal_strlit("zst");
    reveal_strlit("lz4");
    reveal_strlit("lzma");
    reveal_strlit("7z");
    reveal_strlit("rar");
    reveal_strlit("deb");
    reveal_strlit("rpm");
    reveal_strlit("flatpak");
    reveal_strlit("snap");
    reveal_strlit("cab");
    reveal_strlit("cpio");
    reveal_strlit("ar");
    reveal_strlit("tgz");
    reveal_strlit("tbz2");
    reveal_strlit("txz");
    reveal_strlit("ttf");
    reveal_strlit("otf");
    reveal_strlit("woff");
    reveal_strlit("woff2");
    reveal_strlit("eot");
    reveal_strlit("exe");
    reveal_strlit("msi");
    reveal_strlit("bin");
    reveal_strlit("appimage");
    reveal_strlit("run");
    reveal_strlit("dmg");
    reveal_strlit("pkg");
    reveal_strlit("so");
    reveal_strlit("dll");
    reveal_strlit("dylib");
    reveal_strlit("iso");
    reveal_strlit("img");
    reveal_strlit("pem");
    reveal_strlit("crt");
    reveal_strlit("cer");
    reveal_strlit("p12");
    reveal_strlit("pfx");
    reveal_strlit("xpi");
    reveal_strlit("crx");
    reveal_strlit("fw");
    reveal_strlit("rom");
    reveal_strlit("bios");
    reveal_strlit("rss");
    reveal_strlit("atom");
    reveal_strlit("vcf");
    reveal_strlit("vcard");
    reveal_strlit("ics");
    reveal_strlit("ical");
    assert(
        "jpg"@.len() == 3 && "jpg"@[0] == 'j' && "jpg"@[1] == 'p' && "jpg"@[2] == 'g'
            && "jpeg"@.len() == 4 && "jpeg"@[0] == 'j' && "jpeg"@[1] == 'p' && "jpeg"@[2] == 'e' && "jpeg"@[3] == 'g'
            && "png"@.len() == 3 && "png"@[0] == 'p' && "png"@[1] == 'n' && "png"@[2] == 'g'
            && "gif"@.len() == 3 && "gif"@[0] == 'g' && "gif"@[1] == 'i' && "gif"@[2] == 'f'
            && "svg"@.len() == 3 && "svg"@[0] == 's' && "svg"@[1] == 'v' && "svg"@[2] == 'g'
            && "webp"@.len() == 4 && "webp"@[0] == 'w' && "webp"@[1] == 'e' && "webp"@[2] == 'b' && "webp"@[3] == 'p'
            && "bmp"@.len() == 3 && "bmp"@[0] == 'b' && "bmp"@[1] == 'm' && "bmp"@[2] == 'p'
            && "ico"@.len() == 3 && "ico"@[0] == 'i' && "ico"@[1] == 'c' && "ico"@[2] == 'o'
            && "tiff"@.len() == 4 && "tiff"@[0] == 't' && "tiff"@[1] == 'i' && "tiff"@[2] == 'f' && "tiff"@[3] == 'f'
            && "tif"@.len() == 3 && "tif"@[0] == 't' && "tif"@[1] == 'i' && "tif"@[2] == 'f'
            && "heic"@.len() == 4 && "heic"@[0] == 'h' && "heic"@[1] == 'e' && "heic"@[2] == 'i' && "heic"@[3] == 'c'
            && "heif"@.len() == 4 && "heif"@[0] == 'h' && "heif"@[1] == 'e' && "heif"@[2] == 'i' && "heif"@[3] == 'f'
            && "avif"@.len() == 4 && "avif"@[0] == 'a' && "avif"@[1] == 'v' && "avif"@[2] == 'i' && "avif"@[3] == 'f'
            && "raw"@.len() == 3 && "raw"@[0] == 'r' && "raw"@[1] == 'a' && "raw"@[2] == 'w'
            && "cr2"@.len() == 3 && "cr2"@[0] == 'c' && "cr2"@[1] == 'r' && "cr2"@[2] == '2'
            && "nef"@.len() == 3 && "nef"@[0] == 'n' && "nef"@[1] == 'e' && "nef"@[2] == 'f'
            && "psd"@.len() == 3 && "psd"@[0] == 'p' && "psd"@[1] == 's' && "psd"@[2] == 'd'
            && "xcf"@.len() == 3 && "xcf"@[0] == 'x' && "xcf"@[1] == 'c' && "xcf"@[2] == 'f'
            && "mp3"@.len() == 3 && "mp3"@[0] == 'm' && "mp3"@[1] == 'p' && "mp3"@[2] == '3'
            && "flac"@.len() == 4 && "flac"@[0] == 'f' && "flac"@[1] == 'l' && "flac"@[2] == 'a' && "flac"@[3] == 'c'
            && "ogg"@.len() == 3 && "ogg"@[0] == 'o' && "ogg"@[1] == 'g' && "ogg"@[2] == 'g'
            && "oga"@.len() == 3 && "oga"@[0] == 'o' && "oga"@[1] == 'g' && "oga"@[2] == 'a'
            && "wav"@.len() == 3 && "wav"@[0] == 'w' && "wav"@[1] == 'a' && "wav"@[2] == 'v'
            && "aac"@.len() == 3 && "aac"@[0] == 'a' && "aac"@[1] == 'a' && "aac"@[2] == 'c'
            && "wma"@.len() == 3 && "wma"@[0] == 'w' && "wma"@[1] == 'm' && "wma"@[2] == 'a'
            && "m4a"@.len() == 3 && "m4a"@[0] == 'm' && "m4a"@[1] == '4' && "m4a"@[2] == 'a'
            && "opus"@.len() == 4 && "opus"@[0] == 'o' && "opus"@[1] == 'p' && "opus"@[2] == 'u' && "opus"@[3] == 's'
            && "aiff"@.len() == 4 && "aiff"@[0] == 'a' && "aiff"@[1] == 'i' && "aiff"@[2] == 'f' && "aiff"@[3] == 'f'
            && "mid"@.len() == 3 && "mid"@[0] == 'm' && "mid"@[1] == 'i' && "mid"@[2] == 'd'
            && "midi"@.len() == 4 && "midi"@[0] == 'm' && "midi"@[1] == 'i' && "midi"@[2] == 'd' && "midi"@[3] == 'i'
            && "ac3"@.len() == 3 && "ac3"@[0] == 'a' && "ac3"@[1] == 'c' && "ac3"@[2] == '3'
            && "mp4"@.len() == 3 && "mp4"@[0] == 'm' && "mp4"@[1] == 'p' && "mp4"@[2] == '4'
            && "mkv"@.len() == 3 && "mkv"@[0] == 'm' && "mkv"@[1] == 'k' && "mkv"@[2] == 'v'
            && "avi"@.len() == 3 && "avi"@[0] == 'a' && "avi"@[1] == 'v' && "avi"@[2] == 'i'
            && "webm"@.len() == 4 && "webm"@[0] == 'w' && "webm"@[1] == 'e' && "webm"@[2] == 'b' && "webm"@[3] == 'm'
            && "mov"@.len() == 3 && "mov"@[0] == 'm' && "mov"@[1] == 'o' && "mov"@[2] == 'v'
            && "wmv"@.len() == 3 && "wmv"@[0] == 'w' && "wmv"@[1] == 'm' && "wmv"@[2] == 'v'
            && "flv"@.len() == 3 && "flv"@[0] == 'f' && "flv"@[1] == 'l' && "flv"@[2] == 'v'
            && "m4v"@.len() == 3 && "m4v"@[0] == 'm' && "m4v"@[1] == '4' && "m4v"@[2] == 'v'
            && "mpg"@.len() == 3 && "mpg"@[0] == 'm' && "mpg"@[1] == 'p' && "mpg"@[2] == 'g'
            && "mpeg"@.len() == 4 && "mpeg"@[0] == 'm' && "mpeg"@[1] == 'p' && "mpeg"@[2] == 'e' && "mpeg"@[3] == 'g'
            && "3gp"@.len() == 3 && "3gp"@[0] == '3' && "3gp"@[1] == 'g' && "3gp"@[2] == 'p'
            && "ogv"@.len() == 3 && "ogv"@[0] == 'o' && "ogv"@[1] == 'g' && "ogv"@[2] == 'v'
            && "pdf"@.len() == 3 && "pdf"@[0] == 'p' && "pdf"@[1] == 'd' && "pdf"@[2] == 'f'
            && "doc"@.len() == 3 && "doc"@[0] == 'd' && "doc"@[1] == 'o' && "doc"@[2] == 'c'
            && "docx"@.len() == 4 && "docx"@[0] == 'd' && "docx"@[1] == 'o' && "docx"@[2] == 'c' && "docx"@[3] == 'x'
            && "odt"@.len() == 3 && "odt"@[0] == 'o' && "odt"@[1] == 'd' && "odt"@[2] == 't'
            && "rtf"@.len() == 3 && "rtf"@[0] == 'r' && "rtf"@[1] == 't' && "rtf"@[2] == 'f'
            && "epub"@.len() == 4 && "epub"@[0] == 'e' && "epub"@[1] == 'p' && "epub"@[2] == 'u' && "epub"@[3] == 'b'
            && "djvu"@.len() == 4 && "djvu"@[0] == 'd' && "djvu"@[1] == 'j' && "djvu"@[2] == 'v' && "djvu"@[3] == 'u'
            && "pages"@.len() == 5 && "pages"@[0] == 'p' && "pages"@[1] == 'a' && "pages"@[2] == 'g' && "pages"@[3] == 'e' && "pages"@[4] == 's'
            && "md"@.len() == 2 && "md"@[0] == 'm' && "md"@[1] == 'd'
            && "markdown"@.len() == 8 && "markdown"@[0] == 'm' && "markdown"@[1] == 'a' && "markdown"@[2] == 'r' && "markdown"@[3] == 'k' && "markdown"@[4] == 'd' && "markdown"@[5] == 'o' && "markdown"@[6] == 'w' && "markdown"@[7] == 'n'
            && "rst"@.len() == 3 && "rst"@[0] == 'r' && "rst"@[1] == 's' && "rst"@[2] == 't'
            && "adoc"@.len() == 4 && "adoc"@[0] == 'a' && "adoc"@[1] == 'd' && "adoc"@[2] == 'o' && "adoc"@[3] == 'c'
            && "tex"@.len() == 3 && "tex"@[0] == 't' && "tex"@[1] == 'e' && "tex"@[2] == 'x'
            && "latex"@.len() == 5 && "latex"@[0] == 'l' && "latex"@[1] == 'a' && "latex"@[2] == 't' && "latex"@[3] == 'e' && "latex"@[4] == 'x'
            && "xls"@.len() == 3 && "xls"@[0] == 'x' && "xls"@[1] == 'l' && "xls"@[2] == 's'
            && "xlsx"@.len() == 4 && "xlsx"@[0] == 'x' && "xlsx"@[1] == 'l' && "xlsx"@[2] == 's' && "xlsx"@[3] == 'x'
            && "ods"@.len() == 3 && "ods"@[0] == 'o' && "ods"@[1] == 'd' && "ods"@[2] == 's'
            && "csv"@.len() == 3 && "csv"@[0] == 'c' && "csv"@[1] == 's' && "csv"@[2] == 'v'
            && "tsv"@.len() == 3 && "tsv"@[0] == 't' && "tsv"@[1] == 's' && "tsv"@[2] == 'v'
            && "numbers"@.len() == 7 && "numbers"@[0] == 'n' && "numbers"@[1] == 'u' && "numbers"@[2] == 'm' && "numbers"@[3] == 'b' && "numbers"@[4] == 'e' && "numbers"@[5] == 'r' && "numbers"@[6] == 's'
            && "ppt"@.len() == 3 && "ppt"@[0] == 'p' && "ppt"@[1] == 'p' && "ppt"@[2] == 't'
            && "pptx"@.len() == 4 && "pptx"@[0] == 'p' && "pptx"@[1] == 'p' && "pptx"@[2] == 't' && "pptx"@[3] == 'x'
            && "odp"@.len() == 3 && "odp"@[0] == 'o' && "odp"@[1] == 'd' && "odp"@[2] == 'p'
            && "key"@.len() == 3 && "key"@[0] == 'k' && "key"@[1] == 'e' && "key"@[2] == 'y'
            && "odg"@.len() == 3 && "odg"@[0] == 'o' && "odg"@[1] == 'd' && "odg"@[2] == 'g'
            && "vsd"@.len() == 3 && "vsd"@[0] == 'v' && "vsd"@[1] == 's' && "vsd"@[2] == 'd'
            && "vsdx"@.len() == 4 && "vsdx"@[0] == 'v' && "vsdx"@[1] == 's' && "vsdx"@[2] == 'd' && "vsdx"@[3] == 'x'
            && "dia"@.len() == 3 && "dia"@[0] == 'd' && "dia"@[1] == 'i' && "dia"@[2] == 'a'
            && "zip"@.len() == 3 && "zip"@[0] == 'z' && "zip"@[1] == 'i' && "zip"@[2] == 'p'
            && "tar"@.len() == 3 && "tar"@[0] == 't' && "tar"@[1] == 'a' && "tar"@[2] == 'r'
            && "gz"@.len() == 2 && "gz"@[0] == 'g' && "gz"@[1] == 'z'
            && "bz2"@.len() == 3 && "bz2"@[0] == 'b' && "bz2"@[1] == 'z' && "bz2"@[2] == '2'
            && "xz"@.len() == 2 && "xz"@[0] == 'x' && "xz"@[1] == 'z'
            && "zst"@.len() == 3 && "zst"@[0] == 'z' && "zst"@[1] == 's' && "zst"@[2] == 't'
            && "lz4"@.len() == 3 && "lz4"@[0] == 'l' && "lz4"@[1] == 'z' && "lz4"@[2] == '4'
            && "lzma"@.len() == 4 && "lzma"@[0] == 'l' && "lzma"@[1] == 'z' && "lzma"@[2] == 'm' && "lzma"@[3] == 'a'
            && "7z"@.len() == 2 && "7z"@[0] == '7' && "7z"@[1] == 'z'
            && "rar"@.len() == 3 && "rar"@[0] == 'r' && "rar"@[1] == 'a' && "rar"@[2] == 'r'
            && "deb"@.len() == 3 && "deb"@[0] == 'd' && "deb"@[1] == 'e' && "deb"@[2] == 'b'
            && "rpm"@.len() == 3 && "rpm"@[0] == 'r' && "rpm"@[1] == 'p' && "rpm"@[2] == 'm'
            && "flatpak"@.len() == 7 && "flatpak"@[0] == 'f' && "flatpak"@[1] == 'l' && "flatpak"@[2] == 'a' && "flatpak"@[3] == 't' && "flatpak"@[4] == 'p' && "flatpak"@[5] == 'a' && "flatpak"@[6] == 'k'
            && "snap"@.len() == 4 && "snap"@[0] == 's' && "snap"@[1] == 'n' && "snap"@[2] == 'a' && "snap"@[3] == 'p'
            && "cab"@.len() == 3 && "cab"@[0] == 'c' && "cab"@[1] == 'a' && "cab"@[2] == 'b'
            && "cpio"@.len() == 4 && "cpio"@[0] == 'c' && "cpio"@[1] == 'p' && "cpio"@[2] == 'i' && "cpio"@[3] == 'o'
            && "ar"@.len() == 2 && "ar"@[0] == 'a' && "ar"@[1] == 'r'
            && "tgz"@.len() == 3 && "tgz"@[0] == 't' && "tgz"@[1] == 'g' && "tgz"@[2] == 'z'
            && "tbz2"@.len() == 4 && "tbz2"@[0] == 't' && "tbz2"@[1] == 'b' && "tbz2"@[2] == 'z' && "tbz2"@[3] == '2'
            && "txz"@.len() == 3 && "txz"@[0] == 't' && "txz"@[1] == 'x' && "txz"@[2] == 'z'
            && "ttf"@.len() == 3 && "ttf"@[0] == 't' && "ttf"@[1] == 't' && "ttf"@[2] == 'f'
            && "otf"@.len() == 3 && "otf"@[0] == 'o' && "otf"@[1] == 't' && "otf"@[2] == 'f'
            && "woff"@.len() == 4 && "woff"@[0] == 'w' && "woff"@[1] == 'o' && "woff"@[2] == 'f' && "woff"@[3] == 'f'
            && "woff2"@.len() == 5 && "woff2"@[0] == 'w' && "woff2"@[1] == 'o' && "woff2"@[2] == 'f' && "woff2"@[3] == 'f' && "woff2"@[4] == '2'
            && "eot"@.len() == 3 && "eot"@[0] == 'e' && "eot"@[1] == 'o' && "eot"@[2] == 't'
            && "exe"@.len() == 3 && "exe"@[0] == 'e' && "exe"@[1] == 'x' && "exe"@[2] == 'e'
            && "msi"@.len() == 3 && "msi"@[0] == 'm' && "msi"@[1] == 's' && "msi"@[2] == 'i'
            && "bin"@.len() == 3 && "bin"@[0] == 'b' && "bin"@[1] == 'i' && "bin"@[2] == 'n'
            && "appimage"@.len() == 8 && "appimage"@[0] == 'a' && "appimage"@[1] == 'p' && "appimage"@[2] == 'p' && "appimage"@[3] == 'i' && "appimage"@[4] == 'm' && "appimage"@[5] == 'a' && "appimage"@[6] == 'g' && "appimage"@[7] == 'e'
            && "run"@.len() == 3 && "run"@[0] == 'r' && "run"@[1] == 'u' && "run"@[2] == 'n'
            && "dmg"@.len() == 3 && "dmg"@[0] == 'd' && "dmg"@[1] == 'm' && "dmg"@[2] == 'g'
            && "pkg"@.len() == 3 && "pkg"@[0] == 'p' && "pkg"@[1] == 'k' && "pkg"@[2] == 'g'
            && "so"@.len() == 2 && "so"@[0] == 's' && "so"@[1] == 'o'
            && "dll"@.len() == 3 && "dll"@[0] == 'd' && "dll"@[1] == 'l' && "dll"@[2] == 'l'
            && "dylib"@.len() == 5 && "dylib"@[0] == 'd' && "dylib"@[1] == 'y' && "dylib"@[2] == 'l' && "dylib"@[3] == 'i' && "dylib"@[4] == 'b'
            && "iso"@.len() == 3 && "iso"@[0] == 'i' && "iso"@[1] == 's' && "iso"@[2] == 'o'
            && "img"@.len() == 3 && "img"@[0] == 'i' && "img"@[1] == 'm' && "img"@[2] == 'g'
            && "pem"@.len() == 3 && "pem"@[0] == 'p' && "pem"@[1] == 'e' && "pem"@[2] == 'm'
            && "crt"@.len() == 3 && "crt"@[0] == 'c' && "crt"@[1] == 'r' && "crt"@[2] == 't'
            && "cer"@.len() == 3 && "cer"@[0] == 'c' && "cer"@[1] == 'e' && "cer"@[2] == 'r'
            && "p12"@.len() == 3 && "p12"@[0] == 'p' && "p12"@[1] == '1' && "p12"@[2] == '2'
            && "pfx"@.len() == 3 && "pfx"@[0] == 'p' && "pfx"@[1] == 'f' && "pfx"@[2] == 'x'
            && "xpi"@.len() == 3 && "xpi"@[0] == 'x' && "xpi"@[1] == 'p' && "xpi"@[2] == 'i'
            && "crx"@.len() == 3 && "crx"@[0] == 'c' && "crx"@[1] == 'r' && "crx"@[2] == 'x'
            && "fw"@.len() == 2 && "fw"@[0] == 'f' && "fw"@[1] == 'w'
            && "rom"@.len() == 3 && "rom"@[0] == 'r' && "rom"@[1] == 'o' && "rom"@[2] == 'm'
            && "bios"@.len() == 4 && "bios"@[0] == 'b' && "bios"@[1] == 'i' && "bios"@[2] == 'o' && "bios"@[3] == 's'
            && "rss"@.len() == 3 && "rss"@[0] == 'r' && "rss"@[1] == 's' && "rss"@[2] == 's'
            && "atom"@.len() == 4 && "atom"@[0] == 'a' && "atom"@[1] == 't' && "atom"@[2] == 'o' && "atom"@[3] == 'm'
            && "vcf"@.len() == 3 && "vcf"@[0] == 'v' && "vcf"@[1] == 'c' && "vcf"@[2] == 'f'
            && "vcard"@.len() == 5 && "vcard"@[0] == 'v' && "vcard"@[1] == 'c' && "vcard"@[2] == 'a' && "vcard"@[3] == 'r' && "vcard"@[4] == 'd'
            && "ics"@.len() == 3 && "ics"@[0] == 'i' && "ics"@[1] == 'c' && "ics"@[2] == 's'
            && "ical"@.len() == 4 && "ical"@[0] == 'i' && "ical"@[1] == 'c' && "ical"@[2] == 'a' && "ical"@[3] == 'l'
    );
}

/// Source, script, markup and configuration extensions of the table
/// (part 1) get the generic text icon.
proof fn lemma_icons_code_1()
    ensures
        icon_for_extension("sh"@) == "text-x-generic-symbolic"@,
        icon_for_extension("bash"@) == "text-x-generic-symbolic"@,
        icon_for_extension("zsh"@) == "text-x-generic-symbolic"@,
        icon_for_extension("fish"@) == "text-x-generic-symbolic"@,
        icon_for_extension("py"@) == "text-x-generic-symbolic"@,
        icon_for_extension("rb"@) == "text-x-generic-symbolic"@,
        icon_for_extension("pl"@) == "text-x-generic-symbolic"@,
        icon_for_extension("pm"@) == "text-x-generic-symbolic"@,
        icon_for_extension("php"@) == "text-x-generic-symbolic"@,
        icon_for_extension("js"@) == "text-x-generic-symbolic"@,
        icon_for_extension("mjs"@) == "text-x-generic-symbolic"@,
{
    reveal_strlit("jpg");
    reveal_strlit("jpeg");
    reveal_strlit("png");
    reveal_strlit("gif");
    reveal_strlit("svg");
    reveal_strlit("webp");
    reveal_strlit("bmp");
    reveal_strlit("ico");
    reveal_strlit("tiff");
    reveal_strlit("tif");
    reveal_strlit("heic");
    reveal_strlit("heif");
    reveal_strlit("avif");
    reveal_strlit("raw");
    reveal_strlit("cr2");
    reveal_strlit("nef");
    reveal_strlit("psd");
    reveal_strlit("xcf");
    reveal_strlit("mp3");
    reveal_strlit("flac");
    reveal_strlit("ogg");
    reveal_strlit("oga");
    reveal_strlit("wav");
    reveal_strlit("aac");
    reveal_strlit("wma");
    reveal_strlit("m4a");
    reveal_strlit("opus");
    reveal_strlit("aiff");
    reveal_strlit("mid");
    reveal_strlit("midi");
    reveal_strlit("ac3");
    reveal_strlit("mp4");
    reveal_strlit("mkv");
    reveal_strlit("avi");
    reveal_strlit("webm");
    reveal_strlit("mov");
    reveal_strlit("wmv");
    reveal_strlit("flv");
    reveal_strlit("m4v");
    reveal_strlit("mpg");
    reveal_strlit("mpeg");
    reveal_strlit("3gp");
    reveal_strlit("ogv");
    reveal_strlit("pdf");
    reveal_strlit("doc");
    reveal_strlit("docx");
    reveal_strlit("odt");
    reveal_strlit("rtf");
    reveal_strlit("epub");
    reveal_strlit("djvu");
    reveal_strlit("pages");
    reveal_strlit("md");
    reveal_strlit("markdown");
    reveal_strlit("rst");
    reveal_strlit("adoc");
    reveal_strlit("tex");
    reveal_strlit("latex");
    reveal_strlit("xls");
    reveal_strlit("xlsx");
    reveal_strlit("ods");
    reveal_strlit("csv");
    reveal_strlit("tsv");
    reveal_strlit("numbers");
    reveal_strlit("ppt");
    reveal_strlit("pptx");
    reveal_strlit("odp");
    reveal_strlit("key");
    reveal_strlit("odg");
    reveal_strlit("vsd");
    reveal_strlit("vsdx");
    reveal_strlit("dia");
    reveal_strlit("zip");
    reveal_strlit("tar");
    reveal_strlit("gz");
    reveal_strlit("bz2");
    reveal_strlit("xz");
    reveal_strlit("zst");
    reveal_strlit("lz4");
    reveal_strlit("lzma");
    reveal_strlit("7z");
    reveal_strlit("rar");
    reveal_strlit("deb");
    reveal_strlit("rpm");
    reveal_strlit("flatpak");
    reveal_strlit("snap");
    reveal_strlit("cab");
    reveal_strlit("cpio");
    reveal_strlit("ar");
    reveal_strlit("tgz");
    reveal_strlit("tbz2");
    reveal_strlit("txz");
    reveal_strlit("ttf");
    reveal_strlit("otf");
    reveal_strlit("woff");
    reveal_strlit("woff2");
    reveal_strlit("eot");
    reveal_strlit("exe");
    reveal_strlit("msi");
    reveal_strlit("bin");
    reveal_strlit("appimage");
    reveal_strlit("run");
    reveal_strlit("dmg");
    reveal_strlit("pkg");
    reveal_strlit("so");
    reveal_strlit("dll");
    reveal_strlit("dylib");
    reveal_strlit("iso");
    reveal_strlit("img");
    reveal_strlit("pem");
    reveal_strlit("crt");
    reveal_strlit("cer");
    reveal_strlit("p12");
    reveal_strlit("pfx");
    reveal_strlit("xpi");
    reveal_strlit("crx");
    reveal_strlit("fw");
    reveal_strlit("rom");
    reveal_strlit("bios");
    reveal_strlit("rss");
    reveal_strlit("atom");
    reveal_strlit("vcf");
    reveal_strlit("vcard");
    reveal_strlit("ics");
    reveal_strlit("ical");
    reveal_strlit("sh");
    reveal_strlit("bash");
    reveal_strlit("zsh");
    reveal_strlit("fish");
    reveal_strlit("py");
    reveal_strlit("rb");
    reveal_strlit("pl");
    reveal_strlit("pm");
    reveal_strlit("php");
    reveal_strlit("js");
    reveal_strlit("mjs");
    assert(
        "jpg"@.len() == 3 && "jpg"@[0] == 'j' && "jpg"@[1] == 'p' && "jpg"@[2] == 'g'
            && "jpeg"@.len() == 4 && "jpeg"@[0] == 'j' && "jpeg"@[1] == 'p' && "jpeg"@[2] == 'e' && "jpeg"@[3] == 'g'
            && "png"@.len() == 3 && "png"@[0] == 'p' && "png"@[1] == 'n' && "png"@[2] == 'g'
            && "gif"@.len() == 3 && "gif"@[0] == 'g' && "gif"@[1] == 'i' && "gif"@[2] == 'f'
            && "svg"@.len() == 3 && "svg"@[0] == 's' && "svg"@[1] == 'v' && "svg"@[2] == 'g'
            && "webp"@.len() == 4 && "webp"@[0] == 'w' && "webp"@[1] == 'e' && "webp"@[2] == 'b' && "webp"@[3] == 'p'
            && "bmp"@.len() == 3 && "bmp"@[0] == 'b' && "bmp"@[1] == 'm' && "bmp"@[2] == 'p'
            && "ico"@.len() == 3 && "ico"@[0] == 'i' && "ico"@[1] == 'c' && "ico"@[2] == 'o'
            && "tiff"@.len() == 4 && "tiff"@[0] == 't' && "tiff"@[1] == 'i' && "tiff"@[2] == 'f' && "tiff"@[3] == 'f'
            && "tif"@.len() == 3 && "tif"@[0] == 't' && "tif"@[1] == 'i' && "tif"@[2] == 'f'
            && "heic"@.len() == 4 && "heic"@[0] == 'h' && "heic"@[1] == 'e' && "heic"@[2] == 'i' && "heic"@[3] == 'c'
            && "heif"@.len() == 4 && "heif"@[0] == 'h' && "heif"@[1] == 'e' && "heif"@[2] == 'i' && "heif"@[3] == 'f'
            && "avif"@.len() == 4 && "avif"@[0] == 'a' && "avif"@[1] == 'v' && "avif"@[2] == 'i' && "avif"@[3] == 'f'
            && "raw"@.len() == 3 && "raw"@[0] == 'r' && "raw"@[1] == 'a' && "raw"@[2] == 'w'
            && "cr2"@.len() == 3 && "cr2"@[0] == 'c' && "cr2"@[1] == 'r' && "cr2"@[2] == '2'
            && "nef"@.len() == 3 && "nef"@[0] == 'n' && "nef"@[1] == 'e' && "nef"@[2] == 'f'
            && "psd"@.len() == 3 && "psd"@[0] == 'p' && "psd"@[1] == 's' && "psd"@[2] == 'd'
            && "xcf"@.len() == 3 && "xcf"@[0] == 'x' && "xcf"@[1] == 'c' && "xcf"@[2] == 'f'
            && "mp3"@.len() == 3 && "mp3"@[0] == 'm' && "mp3"@[1] == 'p' && "mp3"@[2] == '3'
            && "flac"@.len() == 4 && "flac"@[0] == 'f' && "flac"@[1] == 'l' && "flac"@[2] == 'a' && "flac"@[3] == 'c'
            && "ogg"@.len() == 3 && "ogg"@[0] == 'o' && "ogg"@[1] == 'g' && "ogg"@[2] == 'g'
            && "oga"@.len() == 3 && "oga"@[0] == 'o' && "oga"@[1] == 'g' && "oga"@[2] == 'a'
            && "wav"@.len() == 3 && "wav"@[0] == 'w' && "wav"@[1] == 'a' && "wav"@[2] == 'v'
            && "aac"@.len() == 3 && "aac"@[0] == 'a' && "aac"@[1] == 'a' && "aac"@[2] == 'c'
            && "wma"@.len() == 3 && "wma"@[0] == 'w' && "wma"@[1] == 'm' && "wma"@[2] == 'a'
            && "m4a"@.len() == 3 && "m4a"@[0] == 'm' && "m4a"@[1] == '4' && "m4a"@[2] == 'a'
            && "opus"@.len() == 4 && "opus"@[0] == 'o' && "opus"@[1] == 'p' && "opus"@[2] == 'u' && "opus"@[3] == 's'
            && "aiff"@.len() == 4 && "aiff"@[0] == 'a' && "aiff"@[1] == 'i' && "aiff"@[2] == 'f' && "aiff"@[3] == 'f'
            && "mid"@.len() == 3 && "mid"@[0] == 'm' && "mid"@[1] == 'i' && "mid"@[2] == 'd'
            && "midi"@.len() == 4 && "midi"@[0] == 'm' && "midi"@[1] == 'i' && "midi"@[2] == 'd' && "midi"@[3] == 'i'
            && "ac3"@.len() == 3 && "ac3"@[0] == 'a' && "ac3"@[1] == 'c' && "ac3"@[2] == '3'
            && "mp4"@.len() == 3 && "mp4"@[0] == 'm' && "mp4"@[1] == 'p' && "mp4"@[2] == '4'
            && "mkv"@.len() == 3 && "mkv"@[0] == 'm' && "mkv"@[1] == 'k' && "mkv"@[2] == 'v'
            && "avi"@.len() == 3 && "avi"@[0] == 'a' && "avi"@[1] == 'v' && "avi"@[2] == 'i'
            && "webm"@.len() == 4 && "webm"@[0] == 'w' && "webm"@[1] == 'e' && "webm"@[2] == 'b' && "webm"@[3] == 'm'
            && "mov"@.len() == 3 && "mov"@[0] == 'm' && "mov"@[1] == 'o' && "mov"@[2] == 'v'
            && "wmv"@.len() == 3 && "wmv"@[0] == 'w' && "wmv"@[1] == 'm' && "wmv"@[2] == 'v'
            && "flv"@.len() == 3 && "flv"@[0] == 'f' && "flv"@[1] == 'l' && "flv"@[2] == 'v'
            && "m4v"@.len() == 3 && "m4v"@[0] == 'm' && "m4v"@[1] == '4' && "m4v"@[2] == 'v'
            && "mpg"@.len() == 3 && "mpg"@[0] == 'm' && "mpg"@[1] == 'p' && "mpg"@[2] == 'g'
            && "mpeg"@.len() == 4 && "mpeg"@[0] == 'm' && "mpeg"@[1] == 'p' && "mpeg"@[2] == 'e' && "mpeg"@[3] == 'g'
            && "3gp"@.len() == 3 && "3gp"@[0] == '3' && "3gp"@[1] == 'g' && "3gp"@[2] == 'p'
            && "ogv"@.len() == 3 && "ogv"@[0] == 'o' && "ogv"@[1] == 'g' && "ogv"@[2] == 'v'
            && "pdf"@.len() == 3 && "pdf"@[0] == 'p' && "pdf"@[1] == 'd' && "pdf"@[2] == 'f'
            && "doc"@.len() == 3 && "doc"@[0] == 'd' && "doc"@[1] == 'o' && "doc"@[2] == 'c'
            && "docx"@.len() == 4 && "docx"@[0] == 'd' && "docx"@[1] == 'o' && "docx"@[2] == 'c' && "docx"@[3] == 'x'
            && "odt"@.len() == 3 && "odt"@[0] == 'o' && "odt"@[1] == 'd' && "odt"@[2] == 't'
            && "rtf"@.len() == 3 && "rtf"@[0] == 'r' && "rtf"@[1] == 't' && "rtf"@[2] == 'f'
            && "epub"@.len() == 4 && "epub"@[0] == 'e' && "epub"@[1] == 'p' && "epub"@[2] == 'u' && "epub"@[3] == 'b'
            && "djvu"@.len() == 4 && "djvu"@[0] == 'd' && "djvu"@[1] == 'j' && "djvu"@[2] == 'v' && "djvu"@[3] == 'u'
            && "pages"@.len() == 5 && "pages"@[0] == 'p' && "pages"@[1] == 'a' && "pages"@[2] == 'g' && "pages"@[3] == 'e' && "pages"@[4] == 's'
            && "md"@.len() == 2 && "md"@[0] == 'm' && "md"@[1] == 'd'
            && "markdown"@.len() == 8 && "markdown"@[0] == 'm' && "markdown"@[1] == 'a' && "markdown"@[2] == 'r' && "markdown"@[3] == 'k' && "markdown"@[4] == 'd' && "markdown"@[5] == 'o' && "markdown"@[6] == 'w' && "markdown"@[7] == 'n'
            && "rst"@.len() == 3 && "rst"@[0] == 'r' && "rst"@[1] == 's' && "rst"@[2] == 't'
            && "adoc"@.len() == 4 && "adoc"@[0] == 'a' && "adoc"@[1] == 'd' && "adoc"@[2] == 'o' && "adoc"@[3] == 'c'
            && "tex"@.len() == 3 && "tex"@[0] == 't' && "tex"@[1] == 'e' && "tex"@[2] == 'x'
            && "latex"@.len() == 5 && "latex"@[0] == 'l' && "latex"@[1] == 'a' && "latex"@[2] == 't' && "latex"@[3] == 'e' && "latex"@[4] == 'x'
            && "xls"@.len() == 3 && "xls"@[0] == 'x' && "xls"@[1] == 'l' && "xls"@[2] == 's'
            && "xlsx"@.len() == 4 && "xlsx"@[0] == 'x' && "xlsx"@[1] == 'l' && "xlsx"@[2] == 's' && "xlsx"@[3] == 'x'
            && "ods"@.len() == 3 && "ods"@[0] == 'o' && "ods"@[1] == 'd' && "ods"@[2] == 's'
            && "csv"@.len() == 3 && "csv"@[0] == 'c' && "csv"@[1] == 's' && "csv"@[2] == 'v'
            && "tsv"@.len() == 3 && "tsv"@[0] == 't' && "tsv"@[1] == 's' && "tsv"@[2] == 'v'
            && "numbers"@.len() == 7 && "numbers"@[0] == 'n' && "numbers"@[1] == 'u' && "numbers"@[2] == 'm' && "numbers"@[3] == 'b' && "numbers"@[4] == 'e' && "numbers"@[5] == 'r' && "numbers"@[6] == 's'
            && "ppt"@.len() == 3 && "ppt"@[0] == 'p' && "ppt"@[1] == 'p' && "ppt"@[2] == 't'
            && "pptx"@.len() == 4 && "pptx"@[0] == 'p' && "pptx"@[1] == 'p' && "pptx"@[2] == 't' && "pptx"@[3] == 'x'
            && "odp"@.len() == 3 && "odp"@[0] == 'o' && "odp"@[1] == 'd' && "odp"@[2] == 'p'
            && "key"@.len() == 3 && "key"@[0] == 'k' && "key"@[1] == 'e' && "key"@[2] == 'y'
            && "odg"@.len() == 3 && "odg"@[0] == 'o' && "odg"@[1] == 'd' && "odg"@[2] == 'g'
            && "vsd"@.len() == 3 && "vsd"@[0] == 'v' && "vsd"@[1] == 's' && "vsd"@[2] == 'd'
            && "vsdx"@.len() == 4 && "vsdx"@[0] == 'v' && "vsdx"@[1] == 's' && "vsdx"@[2] == 'd' && "vsdx"@[3] == 'x'
            && "dia"@.len() == 3 && "dia"@[0] == 'd' && "dia"@[1] == 'i' && "dia"@[2] == 'a'
            && "zip"@.len() == 3 && "zip"@[0] == 'z' && "zip"@[1] == 'i' && "zip"@[2] == 'p'
            && "tar"@.len() == 3 && "tar"@[0] == 't' && "tar"@[1] == 'a' && "tar"@[2] == 'r'
            && "gz"@.len() == 2 && "gz"@[0] == 'g' && "gz"@[1] == 'z'
            && "bz2"@.len() == 3 && "bz2"@[0] == 'b' && "bz2"@[1] == 'z' && "bz2"@[2] == '2'
            && "xz"@.len() == 2 && "xz"@[0] == 'x' && "xz"@[1] == 'z'
            && "zst"@.len() == 3 && "zst"@[0] == 'z' && "zst"@[1] == 's' && "zst"@[2] == 't'
            && "lz4"@.len() == 3 && "lz4"@[0] == 'l' && "lz4"@[1] == 'z' && "lz4"@[2] == '4'
            && "lzma"@.len() == 4 && "lzma"@[0] == 'l' && "lzma"@[1] == 'z' && "lzma"@[2] == 'm' && "lzma"@[3] == 'a'
            && "7z"@.len() == 2 && "7z"@[0] == '7' && "7z"@[1] == 'z'
            && "rar"@.len() == 3 && "rar"@[0] == 'r' && "rar"@[1] == 'a' && "rar"@[2] == 'r'
            && "deb"@.len() == 3 && "deb"@[0] == 'd' && "deb"@[1] == 'e' && "deb"@[2] == 'b'
            && "rpm"@.len() == 3 && "rpm"@[0] == 'r' && "rpm"@[1] == 'p' && "rpm"@[2] == 'm'
            && "flatpak"@.len() == 7 && "flatpak"@[0] == 'f' && "flatpak"@[1] == 'l' && "flatpak"@[2] == 'a' && "flatpak"@[3] == 't' && "flatpak"@[4] == 'p' && "flatpak"@[5] == 'a' && "flatpak"@[6] == 'k'
            && "snap"@.len() == 4 && "snap"@[0] == 's' && "snap"@[1] == 'n' && "snap"@[2] == 'a' && "snap"@[3] == 'p'
            && "cab"@.len() == 3 && "cab"@[0] == 'c' && "cab"@[1] == 'a' && "cab"@[2] == 'b'
            && "cpio"@.len() == 4 && "cpio"@[0] == 'c' && "cpio"@[1] == 'p' && "cpio"@[2] == 'i' && "cpio"@[3] == 'o'
            && "ar"@.len() == 2 && "ar"@[0] == 'a' && "ar"@[1] == 'r'
            && "tgz"@.len() == 3 && "tgz"@[0] == 't' && "tgz"@[1] == 'g' && "tgz"@[2] == 'z'
            && "tbz2"@.len() == 4 && "tbz2"@[0] == 't' && "tbz2"@[1] == 'b' && "tbz2"@[2] == 'z' && "tbz2"@[3] == '2'
            && "txz"@.len() == 3 && "txz"@[0] == 't' && "txz"@[1] == 'x' && "txz"@[2] == 'z'
            && "ttf"@.len() == 3 && "ttf"@[0] == 't' && "ttf"@[1] == 't' && "ttf"@[2] == 'f'
            && "otf"@.len() == 3 && "otf"@[0] == 'o' && "otf"@[1] == 't' && "otf"@[2] == 'f'
            && "woff"@.len() == 4 && "woff"@[0] == 'w' && "woff"@[1] == 'o' && "woff"@[2] == 'f' && "woff"@[3] == 'f'
            && "woff2"@.len() == 5 && "woff2"@[0] == 'w' && "woff2"@[1] == 'o' && "woff2"@[2] == 'f' && "woff2"@[3] == 'f' && "woff2"@[4] == '2'
            && "eot"@.len() == 3 && "eot"@[0] == 'e' && "eot"@[1] == 'o' && "eot"@[2] == 't'
            && "exe"@.len() == 3 && "exe"@[0] == 'e' && "exe"@[1] == 'x' && "exe"@[2] == 'e'
            && "msi"@.len() == 3 && "msi"@[0] == 'm' && "msi"@[1] == 's' && "msi"@[2] == 'i'
            && "bin"@.len() == 3 && "bin"@[0] == 'b' && "bin"@[1] == 'i' && "bin"@[2] == 'n'
            && "appimage"@.len() == 8 && "appimage"@[0] == 'a' && "appimage"@[1] == 'p' && "appimage"@[2] == 'p' && "appimage"@[3] == 'i' && "appimage"@[4] == 'm' && "appimage"@[5] == 'a' && "appimage"@[6] == 'g' && "appimage"@[7] == 'e'
            && "run"@.len() == 3 && "run"@[0] == 'r' && "run"@[1] == 'u' && "run"@[2] == 'n'
            && "dmg"@.len() == 3 && "dmg"@[0] == 'd' && "dmg"@[1] == 'm' && "dmg"@[2] == 'g'
            && "pkg"@.len() == 3 && "pkg"@[0] == 'p' && "pkg"@[1] == 'k' && "pkg"@[2] == 'g'
            && "so"@.len() == 2 && "so"@[0] == 's' && "so"@[1] == 'o'
            && "dll"@.len() == 3 && "dll"@[0] == 'd' && "dll"@[1] == 'l' && "dll"@[2] == 'l'
            && "dylib"@.len() == 5 && "dylib"@[0] == 'd' && "dylib"@[1] == 'y' && "dylib"@[2] == 'l' && "dylib"@[3] == 'i' && "dylib"@[4] == 'b'
            && "iso"@.len() == 3 && "iso"@[0] == 'i' && "iso"@[1] == 's' && "iso"@[2] == 'o'
            && "img"@.len() == 3 && "img"@[0] == 'i' && "img"@[1] == 'm' && "img"@[2] == 'g'
            && "pem"@.len() == 3 && "pem"@[0] == 'p' && "pem"@[1] == 'e' && "pem"@[2] == 'm'
            && "crt"@.len() == 3 && "crt"@[0] == 'c' && "crt"@[1] == 'r' && "crt"@[2] == 't'
            && "cer"@.len() == 3 && "cer"@[0] == 'c' && "cer"@[1] == 'e' && "cer"@[2] == 'r'
            && "p12"@.len() == 3 && "p12"@[0] == 'p' && "p12"@[1] == '1' && "p12"@[2] == '2'
            && "pfx"@.len() == 3 && "pfx"@[0] == 'p' && "pfx"@[1] == 'f' && "pfx"@[2] == 'x'
            && "xpi"@.len() == 3 && "xpi"@[0] == 'x' && "xpi"@[1] == 'p' && "xpi"@[2] == 'i'
            && "crx"@.len() == 3 && "crx"@[0] == 'c' && "crx"@[1] == 'r' && "crx"@[2] == 'x'
            && "fw"@.len() == 2 && "fw"@[0] == 'f' && "fw"@[1] == 'w'
            && "rom"@.len() == 3 && "rom"@[0] == 'r' && "rom"@[1] == 'o' && "rom"@[2] == 'm'
            && "bios"@.len() == 4 && "bios"@[0] == 'b' && "bios"@[1] == 'i' && "bios"@[2] == 'o' && "bios"@[3] == 's'
            && "rss"@.len() == 3 && "rss"@[0] == 'r' && "rss"@[1] == 's' && "rss"@[2] == 's'
            && "atom"@.len() == 4 && "atom"@[0] == 'a' && "atom"@[1] == 't' && "atom"@[2] == 'o' && "atom"@[3] == 'm'
            && "vcf"@.len() == 3 && "vcf"@[0] == 'v' && "vcf"@[1] == 'c' && "vcf"@[2] == 'f'
            && "vcard"@.len() == 5 && "vcard"@[0] == 'v' && "vcard"@[1] == 'c' && "vcard"@[2] == 'a' && "vcard"@[3] == 'r' && "vcard"@[4] == 'd'
            && "ics"@.len() == 3 && "ics"@[0] == 'i' && "ics"@[1] == 'c' && "ics"@[2] == 's'
            && "ical"@.len() == 4 && "ical"@[0] == 'i' && "ical"@[1] == 'c' && "ical"@[2] == 'a' && "ical"@[3] == 'l'
            && "sh"@.len() == 2 && "sh"@[0] == 's' && "sh"@[1] == 'h'
            && "bash"@.len() == 4 && "bash"@[0] == 'b' && "bash"@[1] == 'a' && "bash"@[2] == 's' && "bash"@[3] == 'h'
            && "zsh"@.len() == 3 && "zsh"@[0] == 'z' && "zsh"@[1] == 's' && "zsh"@[2] == 'h'
            && "fish"@.len() == 4 && "fish"@[0] == 'f' && "fish"@[1] == 'i' && "fish"@[2] == 's' && "fish"@[3] == 'h'
            && "py"@.len() == 2 && "py"@[0] == 'p' && "py"@[1] == 'y'
            && "rb"@.len() == 2 && "rb"@[0] == 'r' && "rb"@[1] == 'b'
            && "pl"@.len() == 2 && "pl"@[0] == 'p' && "pl"@[1] == 'l'
            && "pm"@.len() == 2 && "pm"@[0] == 'p' && "pm"@[1] == 'm'
            && "php"@.len() == 3 && "php"@[0] == 'p' && "php"@[1] == 'h' && "php"@[2] == 'p'
            && "js"@.len() == 2 && "js"@[0] == 'j' && "js"@[1] == 's'
            && "mjs"@.len() == 3 && "mjs"@[0] == 'm' && "mjs"@[1] == 'j' && "mjs"@[2] == 's'
    );
}

/// Source, script, markup and configuration extensions of the table
/// (part 2) get the generic text icon.
proof fn lemma_icons_code_2()
    ensures
        icon_for_extension("cjs"@) == "text-x-generic-symbolic"@,
        icon_for_extension("jsx"@) == "text-x-generic-symbolic"@,
        icon_for_extension("tsx"@) == "text-x-generic-symbolic"@,
        icon_for_extension("lua"@) == "text-x-generic-symbolic"@,
        icon_for_extension("go"@) == "text-x-generic-symbolic"@,
        icon_for_extension("rs"@) == "text-x-generic-symbolic"@,
        icon_for_extension("c"@) == "text-x-generic-symbolic"@,
        icon_for_extension("cpp"@) == "text-x-generic-symbolic"@,
        icon_for_extension("cc"@) == "text-x-generic-symbolic"@,
        icon_for_extension("cxx"@) == "text-x-generic-symbolic"@,
        icon_for_extension("h"@) == "text-x-generic-symbolic"@,
{
    reveal_strlit("jpg");
    reveal_strlit("jpeg");
    reveal_strlit("png");
    reveal_strlit("gif");
    reveal_strlit("svg");
    reveal_strlit("webp");
    reveal_strlit("bmp");
    reveal_strlit("ico");
    reveal_strlit("tiff");
    reveal_strlit("tif");
    reveal_strlit("heic");
    reveal_strlit("heif");
    reveal_strlit("avif");
    reveal_strlit("raw");
    reveal_strlit("cr2");
    reveal_strlit("nef");
    reveal_strlit("psd");
    reveal_strlit("xcf");
    reveal_strlit("mp3");
    reveal_strlit("flac");
    reveal_strlit("ogg");
    reveal_strlit("oga");
    reveal_strlit("wav");
    reveal_strlit("aac");
    reveal_strlit("wma");
    reveal_strlit("m4a");
    reveal_strlit("opus");
    reveal_strlit("aiff");
    reveal_strlit("mid");
    reveal_strlit("midi");
    reveal_strlit("ac3");
    reveal_strlit("mp4");
    reveal_strlit("mkv");
    reveal_strlit("avi");
    reveal_strlit("webm");
    reveal_strlit("mov");
    reveal_strlit("wmv");
    reveal_strlit("flv");
    reveal_strlit("m4v");
    reveal_strlit("mpg");
    reveal_strlit("mpeg");
    reveal_strlit("3gp");
    reveal_strlit("ogv");
    reveal_strlit("pdf");
    reveal_strlit("doc");
    reveal_strlit("docx");
    reveal_strlit("odt");
    reveal_strlit("rtf");
    reveal_strlit("epub");
    reveal_strlit("djvu");
    reveal_strlit("pages");
    reveal_strlit("md");
    reveal_strlit("markdown");
    reveal_strlit("rst");
    reveal_strlit("adoc");
    reveal_strlit("tex");
    reveal_strlit("latex");
    reveal_strlit("xls");
    reveal_strlit("xlsx");
    reveal_strlit("ods");
    reveal_strlit("csv");
    reveal_strlit("tsv");
    reveal_strlit("numbers");
    reveal_strlit("ppt");
    reveal_strlit("pptx");
    reveal_strlit("odp");
    reveal_strlit("key");
    reveal_strlit("odg");
    reveal_strlit("vsd");
    reveal_strlit("vsdx");
    reveal_strlit("dia");
    reveal_strlit("zip");
    reveal_strlit("tar");
    reveal_strlit("gz");
    reveal_strlit("bz2");
    reveal_strlit("xz");
    reveal_strlit("zst");
    reveal_strlit("lz4");
    reveal_strlit("lzma");
    reveal_strlit("7z");
    reveal_strlit("rar");
    reveal_strlit("deb");
    reveal_strlit("rpm");
    reveal_strlit("flatpak");
    reveal_strlit("snap");
    reveal_strlit("cab");
    reveal_strlit("cpio");
    reveal_strlit("ar");
    reveal_strlit("tgz");
    reveal_strlit("tbz2");
    reveal_strlit("txz");
    reveal_strlit("ttf");
    reveal_strlit("otf");
    reveal_strlit("woff");
    reveal_strlit("woff2");
    reveal_strlit("eot");
    reveal_strlit("exe");
    reveal_strlit("msi");
    reveal_strlit("bin");
    reveal_strlit("appimage");
    reveal_strlit("run");
    reveal_strlit("dmg");
    reveal_strlit("pkg");
    reveal_strlit("so");
    reveal_strlit("dll");
    reveal_strlit("dylib");
    reveal_strlit("iso");
    reveal_strlit("img");
    reveal_strlit("pem");
    reveal_strlit("crt");
    reveal_strlit("cer");
    reveal_strlit("p12");
    reveal_strlit("pfx");
    reveal_strlit("xpi");
    reveal_strlit("crx");
    reveal_strlit("fw");
    reveal_strlit("rom");
    reveal_strlit("bios");
    reveal_strlit("rss");
    reveal_strlit("atom");
    reveal_strlit("vcf");
    reveal_strlit("vcard");
    reveal_strlit("ics");
    reveal_strlit("ical");
    reveal_strlit("cjs");
    reveal_strlit("jsx");
    reveal_strlit("tsx");
    reveal_strlit("lua");
    reveal_strlit("go");
    reveal_strlit("rs");
    reveal_strlit("c");
    reveal_strlit("cpp");
    reveal_strlit("cc");
    reveal_strlit("cxx");
    reveal_strlit("h");
    assert(
        "jpg"@.len() == 3 && "jpg"@[0] == 'j' && "jpg"@[1] == 'p' && "jpg"@[2] == 'g'
            && "jpeg"@.len() == 4 && "jpeg"@[0] == 'j' && "jpeg"@[1] == 'p' && "jpeg"@[2] == 'e' && "jpeg"@[3] == 'g'
            && "png"@.len() == 3 && "png"@[0] == 'p' && "png"@[1] == 'n' && "png"@[2] == 'g'
            && "gif"@.len() == 3 && "gif"@[0] == 'g' && "gif"@[1] == 'i' && "gif"@[2] == 'f'
            && "svg"@.len() == 3 && "svg"@[0] == 's' && "svg"@[1] == 'v' && "svg"@[2] == 'g'
            && "webp"@.len() == 4 && "webp"@[0] == 'w' && "webp"@[1] == 'e' && "webp"@[2] == 'b' && "webp"@[3] == 'p'
            && "bmp"@.len() == 3 && "bmp"@[0] == 'b' && "bmp"@[1] == 'm' && "bmp"@[2] == 'p'
            && "ico"@.len() == 3 && "ico"@[0] == 'i' && "ico"@[1] == 'c' && "ico"@[2] == 'o'
            && "tiff"@.len() == 4 && "tiff"@[0] == 't' && "tiff"@[1] == 'i' && "tiff"@[2] == 'f' && "tiff"@[3] == 'f'
            && "tif"@.len() == 3 && "tif"@[0] == 't' && "tif"@[1] == 'i' && "tif"@[2] == 'f'
            && "heic"@.len() == 4 && "heic"@[0] == 'h' && "heic"@[1] == 'e' && "heic"@[2] == 'i' && "heic"@[3] == 'c'
            && "heif"@.len() == 4 && "heif"@[0] == 'h' && "heif"@[1] == 'e' && "heif"@[2] == 'i' && "heif"@[3] == 'f'
            && "avif"@.len() == 4 && "avif"@[0] == 'a' && "avif"@[1] == 'v' && "avif"@[2] == 'i' && "avif"@[3] == 'f'
            && "raw"@.len() == 3 && "raw"@[0] == 'r' && "raw"@[1] == 'a' && "raw"@[2] == 'w'
            && "cr2"@.len() == 3 && "cr2"@[0] == 'c' && "cr2"@[1] == 'r' && "cr2"@[2] == '2'
            && "nef"@.len() == 3 && "nef"@[0] == 'n' && "nef"@[1] == 'e' && "nef"@[2] == 'f'
            && "psd"@.len() == 3 && "psd"@[0] == 'p' && "psd"@[1] == 's' && "psd"@[2] == 'd'
            && "xcf"@.len() == 3 && "xcf"@[0] == 'x' && "xcf"@[1] == 'c' && "xcf"@[2] == 'f'
            && "mp3"@.len() == 3 && "mp3"@[0] == 'm' && "mp3"@[1] == 'p' && "mp3"@[2] == '3'
            && "flac"@.len() == 4 && "flac"@[0] == 'f' && "flac"@[1] == 'l' && "flac"@[2] == 'a' && "flac"@[3] == 'c'
            && "ogg"@.len() == 3 && "ogg"@[0] == 'o' && "ogg"@[1] == 'g' && "ogg"@[2] == 'g'
            && "oga"@.len() == 3 && "oga"@[0] == 'o' && "oga"@[1] == 'g' && "oga"@[2] == 'a'
            && "wav"@.len() == 3 && "wav"@[0] == 'w' && "wav"@[1] == 'a' && "wav"@[2] == 'v'
            && "aac"@.len() == 3 && "aac"@[0] == 'a' && "aac"@[1] == 'a' && "aac"@[2] == 'c'
            && "wma"@.len() == 3 && "wma"@[0] == 'w' && "wma"@[1] == 'm' && "wma"@[2] == 'a'
            && "m4a"@.len() == 3 && "m4a"@[0] == 'm' && "m4a"@[1] == '4' && "m4a"@[2] == 'a'
            && "opus"@.len() == 4 && "opus"@[0] == 'o' && "opus"@[1] == 'p' && "opus"@[2] == 'u' && "opus"@[3] == 's'
            && "aiff"@.len() == 4 && "aiff"@[0] == 'a' && "aiff"@[1] == 'i' && "aiff"@[2] == 'f' && "aiff"@[3] == 'f'
            && "mid"@.len() == 3 && "mid"@[0] == 'm' && "mid"@[1] == 'i' && "mid"@[2] == 'd'
            && "midi"@.len() == 4 && "midi"@[0] == 'm' && "midi"@[1] == 'i' && "midi"@[2] == 'd' && "midi"@[3] == 'i'
            && "ac3"@.len() == 3 && "ac3"@[0] == 'a' && "ac3"@[1] == 'c' && "ac3"@[2] == '3'
            && "mp4"@.len() == 3 && "mp4"@[0] == 'm' && "mp4"@[1] == 'p' && "mp4"@[2] == '4'
            && "mkv"@.len() == 3 && "mkv"@[0] == 'm' && "mkv"@[1] == 'k' && "mkv"@[2] == 'v'
            && "avi"@.len() == 3 && "avi"@[0] == 'a' && "avi"@[1] == 'v' && "avi"@[2] == 'i'
            && "webm"@.len() == 4 && "webm"@[0] == 'w' && "webm"@[1] == 'e' && "webm"@[2] == 'b' && "webm"@[3] == 'm'
            && "mov"@.len() == 3 && "mov"@[0] == 'm' && "mov"@[1] == 'o' && "mov"@[2] == 'v'
            && "wmv"@.len() == 3 && "wmv"@[0] == 'w' && "wmv"@[1] == 'm' && "wmv"@[2] == 'v'
            && "flv"@.len() == 3 && "flv"@[0] == 'f' && "flv"@[1] == 'l' && "flv"@[2] == 'v'
            && "m4v"@.len() == 3 && "m4v"@[0] == 'm' && "m4v"@[1] == '4' && "m4v"@[2] == 'v'
            && "mpg"@.len() == 3 && "mpg"@[0] == 'm' && "mpg"@[1] == 'p' && "mpg"@[2] == 'g'
            && "mpeg"@.len() == 4 && "mpeg"@[0] == 'm' && "mpeg"@[1] == 'p' && "mpeg"@[2] == 'e' && "mpeg"@[3] == 'g'
            && "3gp"@.len() == 3 && "3gp"@[0] == '3' && "3gp"@[1] == 'g' && "3gp"@[2] == 'p'
            && "ogv"@.len() == 3 && "ogv"@[0] == 'o' && "ogv"@[1] == 'g' && "ogv"@[2] == 'v'
            && "pdf"@.len() == 3 && "pdf"@[0] == 'p' && "pdf"@[1] == 'd' && "pdf"@[2] == 'f'
            && "doc"@.len() == 3 && "doc"@[0] == 'd' && "doc"@[1] == 'o' && "doc"@[2] == 'c'
            && "docx"@.len() == 4 && "docx"@[0] == 'd' && "docx"@[1] == 'o' && "docx"@[2] == 'c' && "docx"@[3] == 'x'
            && "odt"@.len() == 3 && "odt"@[0] == 'o' && "odt"@[1] == 'd' && "odt"@[2] == 't'
            && "rtf"@.len() == 3 && "rtf"@[0] == 'r' && "rtf"@[1] == 't' && "rtf"@[2] == 'f'
            && "epub"@.len() == 4 && "epub"@[0] == 'e' && "epub"@[1] == 'p' && "epub"@[2] == 'u' && "epub"@[3] == 'b'
            && "djvu"@.len() == 4 && "djvu"@[0] == 'd' && "djvu"@[1] == 'j' && "djvu"@[2] == 'v' && "djvu"@[3] == 'u'
            && "pages"@.len() == 5 && "pages"@[0] == 'p' && "pages"@[1] == 'a' && "pages"@[2] == 'g' && "pages"@[3] == 'e' && "pages"@[4] == 's'
            && "md"@.len() == 2 && "md"@[0] == 'm' && "md"@[1] == 'd'
            && "markdown"@.len() == 8 && "markdown"@[0] == 'm' && "markdown"@[1] == 'a' && "markdown"@[2] == 'r' && "markdown"@[3] == 'k' && "markdown"@[4] == 'd' && "markdown"@[5] == 'o' && "markdown"@[6] == 'w' && "markdown"@[7] == 'n'
            && "rst"@.len() == 3 && "rst"@[0] == 'r' && "rst"@[1] == 's' && "rst"@[2] == 't'
            && "adoc"@.len() == 4 && "adoc"@[0] == 'a' && "adoc"@[1] == 'd' && "adoc"@[2] == 'o' && "adoc"@[3] == 'c'
            && "tex"@.len() == 3 && "tex"@[0] == 't' && "tex"@[1] == 'e' && "tex"@[2] == 'x'
            && "latex"@.len() == 5 && "latex"@[0] == 'l' && "latex"@[1] == 'a' && "latex"@[2] == 't' && "latex"@[3] == 'e' && "latex"@[4] == 'x'
            && "xls"@.len() == 3 && "xls"@[0] == 'x' && "xls"@[1] == 'l' && "xls"@[2] == 's'
            && "xlsx"@.len() == 4 && "xlsx"@[0] == 'x' && "xlsx"@[1] == 'l' && "xlsx"@[2] == 's' && "xlsx"@[3] == 'x'
            && "ods"@.len() == 3 && "ods"@[0] == 'o' && "ods"@[1] == 'd' && "ods"@[2] == 's'
            && "csv"@.len() == 3 && "csv"@[0] == 'c' && "csv"@[1] == 's' && "csv"@[2] == 'v'
            && "tsv"@.len() == 3 && "tsv"@[0] == 't' && "tsv"@[1] == 's' && "tsv"@[2] == 'v'
            && "numbers"@.len() == 7 && "numbers"@[0] == 'n' && "numbers"@[1] == 'u' && "numbers"@[2] == 'm' && "numbers"@[3] == 'b' && "numbers"@[4] == 'e' && "numbers"@[5] == 'r' && "numbers"@[6] == 's'
            && "ppt"@.len() == 3 && "ppt"@[0] == 'p' && "ppt"@[1] == 'p' && "ppt"@[2] == 't'
            && "pptx"@.len() == 4 && "pptx"@[0] == 'p' && "pptx"@[1] == 'p' && "pptx"@[2] == 't' && "pptx"@[3] == 'x'
            && "odp"@.len() == 3 && "odp"@[0] == 'o' && "odp"@[1] == 'd' && "odp"@[2] == 'p'
            && "key"@.len() == 3 && "key"@[0] == 'k' && "key"@[1] == 'e' && "key"@[2] == 'y'
            && "odg"@.len() == 3 && "odg"@[0] == 'o' && "odg"@[1] == 'd' && "odg"@[2] == 'g'
            && "vsd"@.len() == 3 && "vsd"@[0] == 'v' && "vsd"@[1] == 's' && "vsd"@[2] == 'd'
            && "vsdx"@.len() == 4 && "vsdx"@[0] == 'v' && "vsdx"@[1] == 's' && "vsdx"@[2] == 'd' && "vsdx"@[3] == 'x'
            && "dia"@.len() == 3 && "dia"@[0] == 'd' && "dia"@[1] == 'i' && "dia"@[2] == 'a'
            && "zip"@.len() == 3 && "zip"@[0] == 'z' && "zip"@[1] == 'i' && "zip"@[2] == 'p'
            && "tar"@.len() == 3 && "tar"@[0] == 't' && "tar"@[1] == 'a' && "tar"@[2] == 'r'
            && "gz"@.len() == 2 && "gz"@[0] == 'g' && "gz"@[1] == 'z'
            && "bz2"@.len() == 3 && "bz2"@[0] == 'b' && "bz2"@[1] == 'z' && "bz2"@[2] == '2'
            && "xz"@.len() == 2 && "xz"@[0] == 'x' && "xz"@[1] == 'z'
            && "zst"@.len() == 3 && "zst"@[0] == 'z' && "zst"@[1] == 's' && "zst"@[2] == 't'
            && "lz4"@.len() == 3 && "lz4"@[0] == 'l' && "lz4"@[1] == 'z' && "lz4"@[2] == '4'
            && "lzma"@.len() == 4 && "lzma"@[0] == 'l' && "lzma"@[1] == 'z' && "lzma"@[2] == 'm' && "lzma"@[3] == 'a'
            && "7z"@.len() == 2 && "7z"@[0] == '7' && "7z"@[1] == 'z'
            && "rar"@.len() == 3 && "rar"@[0] == 'r' && "rar"@[1] == 'a' && "rar"@[2] == 'r'
            && "deb"@.len() == 3 && "deb"@[0] == 'd' && "deb"@[1] == 'e' && "deb"@[2] == 'b'
            && "rpm"@.len() == 3 && "rpm"@[0] == 'r' && "rpm"@[1] == 'p' && "rpm"@[2] == 'm'
            && "flatpak"@.len() == 7 && "flatpak"@[0] == 'f' && "flatpak"@[1] == 'l' && "flatpak"@[2] == 'a' && "flatpak"@[3] == 't' && "flatpak"@[4] == 'p' && "flatpak"@[5] == 'a' && "flatpak"@[6] == 'k'
            && "snap"@.len() == 4 && "snap"@[0] == 's' && "snap"@[1] == 'n' && "snap"@[2] == 'a' && "snap"@[3] == 'p'
            && "cab"@.len() == 3 && "cab"@[0] == 'c' && "cab"@[1] == 'a' && "cab"@[2] == 'b'
            && "cpio"@.len() == 4 && "cpio"@[0] == 'c' && "cpio"@[1] == 'p' && "cpio"@[2] == 'i' && "cpio"@[3] == 'o'
            && "ar"@.len() == 2 && "ar"@[0] == 'a' && "ar"@[1] == 'r'
            && "tgz"@.len() == 3 && "tgz"@[0] == 't' && "tgz"@[1] == 'g' && "tgz"@[2] == 'z'
            && "tbz2"@.len() == 4 && "tbz2"@[0] == 't' && "tbz2"@[1] == 'b' && "tbz2"@[2] == 'z' && "tbz2"@[3] == '2'
            && "txz"@.len() == 3 && "txz"@[0] == 't' && "txz"@[1] == 'x' && "txz"@[2] == 'z'
            && "ttf"@.len() == 3 && "ttf"@[0] == 't' && "ttf"@[1] == 't' && "ttf"@[2] == 'f'
            && "otf"@.len() == 3 && "otf"@[0] == 'o' && "otf"@[1] == 't' && "otf"@[2] == 'f'
            && "woff"@.len() == 4 && "woff"@[0] == 'w' && "woff"@[1] == 'o' && "woff"@[2] == 'f' && "woff"@[3] == 'f'
            && "woff2"@.len() == 5 && "woff2"@[0] == 'w' && "woff2"@[1] == 'o' && "woff2"@[2] == 'f' && "woff2"@[3] == 'f' && "woff2"@[4] == '2'
            && "eot"@.len() == 3 && "eot"@[0] == 'e' && "eot"@[1] == 'o' && "eot"@[2] == 't'
            && "exe"@.len() == 3 && "exe"@[0] == 'e' && "exe"@[1] == 'x' && "exe"@[2] == 'e'
            && "msi"@.len() == 3 && "msi"@[0] == 'm' && "msi"@[1] == 's' && "msi"@[2] == 'i'
            && "bin"@.len() == 3 && "bin"@[0] == 'b' && "bin"@[1] == 'i' && "bin"@[2] == 'n'
            && "appimage"@.len() == 8 && "appimage"@[0] == 'a' && "appimage"@[1] == 'p' && "appimage"@[2] == 'p' && "appimage"@[3] == 'i' && "appimage"@[4] == 'm' && "appimage"@[5] == 'a' && "appimage"@[6] == 'g' && "appimage"@[7] == 'e'
            && "run"@.len() == 3 && "run"@[0] == 'r' && "run"@[1] == 'u' && "run"@[2] == 'n'
            && "dmg"@.len() == 3 && "dmg"@[0] == 'd' && "dmg"@[1] == 'm' && "dmg"@[2] == 'g'
            && "pkg"@.len() == 3 && "pkg"@[0] == 'p' && "pkg"@[1] == 'k' && "pkg"@[2] == 'g'
            && "so"@.len() == 2 && "so"@[0] == 's' && "so"@[1] == 'o'
            && "dll"@.len() == 3 && "dll"@[0] == 'd' && "dll"@[1] == 'l' && "dll"@[2] == 'l'
            && "dylib"@.len() == 5 && "dylib"@[0] == 'd' && "dylib"@[1] == 'y' && "dylib"@[2] == 'l' && "dylib"@[3] == 'i' && "dylib"@[4] == 'b'
            && "iso"@.len() == 3 && "iso"@[0] == 'i' && "iso"@[1] == 's' && "iso"@[2] == 'o'
            && "img"@.len() == 3 && "img"@[0] == 'i' && "img"@[1] == 'm' && "img"@[2] == 'g'
            && "pem"@.len() == 3 && "pem"@[0] == 'p' && "pem"@[1] == 'e' && "pem"@[2] == 'm'
            && "crt"@.len() == 3 && "crt"@[0] == 'c' && "crt"@[1] == 'r' && "crt"@[2] == 't'
            && "cer"@.len() == 3 && "cer"@[0] == 'c' && "cer"@[1] == 'e' && "cer"@[2] == 'r'
            && "p12"@.len() == 3 && "p12"@[0] == 'p' && "p12"@[1] == '1' && "p12"@[2] == '2'
            && "pfx"@.len() == 3 && "pfx"@[0] == 'p' && "pfx"@[1] == 'f' && "pfx"@[2] == 'x'
            && "xpi"@.len() == 3 && "xpi"@[0] == 'x' && "xpi"@[1] == 'p' && "xpi"@[2] == 'i'
            && "crx"@.len() == 3 && "crx"@[0] == 'c' && "crx"@[1] == 'r' && "crx"@[2] == 'x'
            && "fw"@.len() == 2 && "fw"@[0] == 'f' && "fw"@[1] == 'w'
            && "rom"@.len() == 3 && "rom"@[0] == 'r' && "rom"@[1] == 'o' && "rom"@[2] == 'm'
            && "bios"@.len() == 4 && "bios"@[0] == 'b' && "bios"@[1] == 'i' && "bios"@[2] == 'o' && "bios"@[3] == 's'
            && "rss"@.len() == 3 && "rss"@[0] == 'r' && "rss"@[1] == 's' && "rss"@[2] == 's'
            && "atom"@.len() == 4 && "atom"@[0] == 'a' && "atom"@[1] == 't' && "atom"@[2] == 'o' && "atom"@[3] == 'm'
            && "vcf"@.len() == 3 && "vcf"@[0] == 'v' && "vcf"@[1] == 'c' && "vcf"@[2] == 'f'
            && "vcard"@.len() == 5 && "vcard"@[0] == 'v' && "vcard"@[1] == 'c' && "vcard"@[2] == 'a' && "vcard"@[3] == 'r' && "vcard"@[4] == 'd'
            && "ics"@.len() == 3 && "ics"@[0] == 'i' && "ics"@[1] == 'c' && "ics"@[2] == 's'
            && "ical"@.len() == 4 && "ical"@[0] == 'i' && "ical"@[1] == 'c' && "ical"@[2] == 'a' && "ical"@[3] == 'l'
            && "cjs"@.len() == 3 && "cjs"@[0] == 'c' && "cjs"@[1] == 'j' && "cjs"@[2] == 's'
            && "jsx"@.len() == 3 && "jsx"@[0] == 'j' && "jsx"@[1] == 's' && "jsx"@[2] == 'x'
            && "tsx"@.len() == 3 && "tsx"@[0] == 't' && "tsx"@[1] == 's' && "tsx"@[2] == 'x'
            && "lua"@.len() == 3 && "lua"@[0] == 'l' && "lua"@[1] == 'u' && "lua"@[2] == 'a'
            && "go"@.len() == 2 && "go"@[0] == 'g' && "go"@[1] == 'o'
            && "rs"@.len() == 2 && "rs"@[0] == 'r' && "rs"@[1] == 's'
            && "c"@.len() == 1 && "c"@[0] == 'c'
            && "cpp"@.len() == 3 && "cpp"@[0] == 'c' && "cpp"@[1] == 'p' && "cpp"@[2] == 'p'
            && "cc"@.len() == 2 && "cc"@[0] == 'c' && "cc"@[1] == 'c'
            && "cxx"@.len() == 3 && "cxx"@[0] == 'c' && "cxx"@[1] == 'x' && "cxx"@[2] == 'x'
            && "h"@.len() == 1 && "h"@[0] == 'h'
    );
}

/// Source, script, markup and configuration extensions of the table
/// (part 3) get the generic text icon.
proof fn lemma_icons_code_3()
    ensures
        icon_for_extension("hpp"@) == "text-x-generic-symbolic"@,
        icon_for_extension("hxx"@) == "text-x-generic-symbolic"@,
        icon_for_extension("java"@) == "text-x-generic-symbolic"@,
        icon_for_extension("kt"@) == "text-x-generic-symbolic"@,
        icon_for_extension("kts"@) == "text-x-generic-symbolic"@,
        icon_for_extension("swift"@) == "text-x-generic-symbolic"@,
        icon_for_extension("dart"@) == "text-x-generic-symbolic"@,
        icon_for_extension("cs"@) == "text-x-generic-symbolic"@,
        icon_for_extension("vb"@) == "text-x-generic-symbolic"@,
        icon_for_extension("fs"@) == "text-x-generic-symbolic"@,
        icon_for_extension("r"@) == "text-x-generic-symbolic"@,
{
    reveal_strlit("jpg");
    reveal_strlit("jpeg");
    reveal_strlit("png");
    reveal_strlit("gif");
    reveal_strlit("svg");
    reveal_strlit("webp");
    reveal_strlit("bmp");
    reveal_strlit("ico");
    reveal_strlit("tiff");
    reveal_strlit("tif");
    reveal_strlit("heic");
    reveal_strlit("heif");
    reveal_strlit("avif");
    reveal_strlit("raw");
    reveal_strlit("cr2");
    reveal_strlit("nef");
    reveal_strlit("psd");
    reveal_strlit("xcf");
    reveal_strlit("mp3");
    reveal_strlit("flac");
    reveal_strlit("ogg");
    reveal_strlit("oga");
    reveal_strlit("wav");
    reveal_strlit("aac");
    reveal_strlit("wma");
    reveal_strlit("m4a");
    reveal_strlit("opus");
    reveal_strlit("aiff");
    reveal_strlit("mid");
    reveal_strlit("midi");
    reveal_strlit("ac3");
    reveal_strlit("mp4");
    reveal_strlit("mkv");
    reveal_strlit("avi");
    reveal_strlit("webm");
    reveal_strlit("mov");
    reveal_strlit("wmv");
    reveal_strlit("flv");
    reveal_strlit("m4v");
    reveal_strlit("mpg");
    reveal_strlit("mpeg");
    reveal_strlit("3gp");
    reveal_strlit("ogv");
    reveal_strlit("pdf");
    reveal_strlit("doc");
    reveal_strlit("docx");
    reveal_strlit("odt");
    reveal_strlit("rtf");
    reveal_strlit("epub");
    reveal_strlit("djvu");
    reveal_strlit("pages");
    reveal_strlit("md");
    reveal_strlit("markdown");
    reveal_strlit("rst");
    reveal_strlit("adoc");
    reveal_strlit("tex");
    reveal_strlit("latex");
    reveal_strlit("xls");
    reveal_strlit("xlsx");
    reveal_strlit("ods");
    reveal_strlit("csv");
    reveal_strlit("tsv");
    reveal_strlit("numbers");
    reveal_strlit("ppt");
    reveal_strlit("pptx");
    reveal_strlit("odp");
    reveal_strlit("key");
    reveal_strlit("odg");
    reveal_strlit("vsd");
    reveal_strlit("vsdx");
    reveal_strlit("dia");
    reveal_strlit("zip");
    reveal_strlit("tar");
    reveal_strlit("gz");
    reveal_strlit("bz2");
    reveal_strlit("xz");
    reveal_strlit("zst");
    reveal_strlit("lz4");
    reveal_strlit("lzma");
    reveal_strlit("7z");
    reveal_strlit("rar");
    reveal_strlit("deb");
    reveal_strlit("rpm");
    reveal_strlit("flatpak");
    reveal_strlit("snap");
    reveal_strlit("cab");
    reveal_strlit("cpio");
    reveal_strlit("ar");
    reveal_strlit("tgz");
    reveal_strlit("tbz2");
    reveal_strlit("txz");
    reveal_strlit("ttf");
    reveal_strlit("otf");
    reveal_strlit("woff");
    reveal_strlit("woff2");
    reveal_strlit("eot");
    reveal_strlit("exe");
    reveal_strlit("msi");
    reveal_strlit("bin");
    reveal_strlit("appimage");
    reveal_strlit("run");
    reveal_strlit("dmg");
    reveal_strlit("pkg");
    reveal_strlit("so");
    reveal_strlit("dll");
    reveal_strlit("dylib");
    reveal_strlit("iso");
    reveal_strlit("img");
    reveal_strlit("pem");
    reveal_strlit("crt");
    reveal_strlit("cer");
    reveal_strlit("p12");
    reveal_strlit("pfx");
    reveal_strlit("xpi");
    reveal_strlit("crx");
    reveal_strlit("fw");
    reveal_strlit("rom");
    reveal_strlit("bios");
    reveal_strlit("rss");
    reveal_strlit("atom");
    reveal_strlit("vcf");
    reveal_strlit("vcard");
    reveal_strlit("ics");
    reveal_strlit("ical");
    reveal_strlit("hpp");
    reveal_strlit("hxx");
    reveal_strlit("java");
    reveal_strlit("kt");
    reveal_strlit("kts");
    reveal_strlit("swift");
    reveal_strlit("dart");
    reveal_strlit("cs");
    reveal_strlit("vb");
    reveal_strlit("fs");
    reveal_strlit("r");
    assert(
        "jpg"@.len() == 3 && "jpg"@[0] == 'j' && "jpg"@[1] == 'p' && "jpg"@[2] == 'g'
            && "jpeg"@.len() == 4 && "jpeg"@[0] == 'j' && "jpeg"@[1] == 'p' && "jpeg"@[2] == 'e' && "jpeg"@[3] == 'g'
            && "png"@.len() == 3 && "png"@[0] == 'p' && "png"@[1] == 'n' && "png"@[2] == 'g'
            && "gif"@.len() == 3 && "gif"@[0] == 'g' && "gif"@[1] == 'i' && "gif"@[2] == 'f'
            && "svg"@.len() == 3 && "svg"@[0] == 's' && "svg"@[1] == 'v' && "svg"@[2] == 'g'
            && "webp"@.len() == 4 && "webp"@[0] == 'w' && "webp"@[1] == 'e' && "webp"@[2] == 'b' && "webp"@[3] == 'p'
            && "bmp"@.len() == 3 && "bmp"@[0] == 'b' && "bmp"@[1] == 'm' && "bmp"@[2] == 'p'
            && "ico"@.len() == 3 && "ico"@[0] == 'i' && "ico"@[1] == 'c' && "ico"@[2] == 'o'
            && "tiff"@.len() == 4 && "tiff"@[0] == 't' && "tiff"@[1] == 'i' && "tiff"@[2] == 'f' && "tiff"@[3] == 'f'
            && "tif"@.len() == 3 && "tif"@[0] == 't' && "tif"@[1] == 'i' && "tif"@[2] == 'f'
            && "heic"@.len() == 4 && "heic"@[0] == 'h' && "heic"@[1] == 'e' && "heic"@[2] == 'i' && "heic"@[3] == 'c'
            && "heif"@.len() == 4 && "heif"@[0] == 'h' && "heif"@[1] == 'e' && "heif"@[2] == 'i' && "heif"@[3] == 'f'
            && "avif"@.len() == 4 && "avif"@[0] == 'a' && "avif"@[1] == 'v' && "avif"@[2] == 'i' && "avif"@[3] == 'f'
            && "raw"@.len() == 3 && "raw"@[0] == 'r' && "raw"@[1] == 'a' && "raw"@[2] == 'w'
            && "cr2"@.len() == 3 && "cr2"@[0] == 'c' && "cr2"@[1] == 'r' && "cr2"@[2] == '2'
            && "nef"@.len() == 3 && "nef"@[0] == 'n' && "nef"@[1] == 'e' && "nef"@[2] == 'f'
            && "psd"@.len() == 3 && "psd"@[0] == 'p' && "psd"@[1] == 's' && "psd"@[2] == 'd'
            && "xcf"@.len() == 3 && "xcf"@[0] == 'x' && "xcf"@[1] == 'c' && "xcf"@[2] == 'f'
            && "mp3"@.len() == 3 && "mp3"@[0] == 'm' && "mp3"@[1] == 'p' && "mp3"@[2] == '3'
            && "flac"@.len() == 4 && "flac"@[0] == 'f' && "flac"@[1] == 'l' && "flac"@[2] == 'a' && "flac"@[3] == 'c'
            && "ogg"@.len() == 3 && "ogg"@[0] == 'o' && "ogg"@[1] == 'g' && "ogg"@[2] == 'g'
            && "oga"@.len() == 3 && "oga"@[0] == 'o' && "oga"@[1] == 'g' && "oga"@[2] == 'a'
            && "wav"@.len() == 3 && "wav"@[0] == 'w' && "wav"@[1] == 'a' && "wav"@[2] == 'v'
            && "aac"@.len() == 3 && "aac"@[0] == 'a' && "aac"@[1] == 'a' && "aac"@[2] == 'c'
            && "wma"@.len() == 3 && "wma"@[0] == 'w' && "wma"@[1] == 'm' && "wma"@[2] == 'a'
            && "m4a"@.len() == 3 && "m4a"@[0] == 'm' && "m4a"@[1] == '4' && "m4a"@[2] == 'a'
            && "opus"@.len() == 4 && "opus"@[0] == 'o' && "opus"@[1] == 'p' && "opus"@[2] == 'u' && "opus"@[3] == 's'
            && "aiff"@.len() == 4 && "aiff"@[0] == 'a' && "aiff"@[1] == 'i' && "aiff"@[2] == 'f' && "aiff"@[3] == 'f'
            && "mid"@.len() == 3 && "mid"@[0] == 'm' && "mid"@[1] == 'i' && "mid"@[2] == 'd'
            && "midi"@.len() == 4 && "midi"@[0] == 'm' && "midi"@[1] == 'i' && "midi"@[2] == 'd' && "midi"@[3] == 'i'
            && "ac3"@.len() == 3 && "ac3"@[0] == 'a' && "ac3"@[1] == 'c' && "ac3"@[2] == '3'
            && "mp4"@.len() == 3 && "mp4"@[0] == 'm' && "mp4"@[1] == 'p' && "mp4"@[2] == '4'
            && "mkv"@.len() == 3 && "mkv"@[0] == 'm' && "mkv"@[1] == 'k' && "mkv"@[2] == 'v'
            && "avi"@.len() == 3 && "avi"@[0] == 'a' && "avi"@[1] == 'v' && "avi"@[2] == 'i'
            && "webm"@.len() == 4 && "webm"@[0] == 'w' && "webm"@[1] == 'e' && "webm"@[2] == 'b' && "webm"@[3] == 'm'
            && "mov"@.len() == 3 && "mov"@[0] == 'm' && "mov"@[1] == 'o' && "mov"@[2] == 'v'
            && "wmv"@.len() == 3 && "wmv"@[0] == 'w' && "wmv"@[1] == 'm' && "wmv"@[2] == 'v'
            && "flv"@.len() == 3 && "flv"@[0] == 'f' && "flv"@[1] == 'l' && "flv"@[2] == 'v'
            && "m4v"@.len() == 3 && "m4v"@[0] == 'm' && "m4v"@[1] == '4' && "m4v"@[2] == 'v'
            && "mpg"@.len() == 3 && "mpg"@[0] == 'm' && "mpg"@[1] == 'p' && "mpg"@[2] == 'g'
            && "mpeg"@.len() == 4 && "mpeg"@[0] == 'm' && "mpeg"@[1] == 'p' && "mpeg"@[2] == 'e' && "mpeg"@[3] == 'g'
            && "3gp"@.len() == 3 && "3gp"@[0] == '3' && "3gp"@[1] == 'g' && "3gp"@[2] == 'p'
            && "ogv"@.len() == 3 && "ogv"@[0] == 'o' && "ogv"@[1] == 'g' && "ogv"@[2] == 'v'
            && "pdf"@.len() == 3 && "pdf"@[0] == 'p' && "pdf"@[1] == 'd' && "pdf"@[2] == 'f'
            && "doc"@.len() == 3 && "doc"@[0] == 'd' && "doc"@[1] == 'o' && "doc"@[2] == 'c'
            && "docx"@.len() == 4 && "docx"@[0] == 'd' && "docx"@[1] == 'o' && "docx"@[2] == 'c' && "docx"@[3] == 'x'
            && "odt"@.len() == 3 && "odt"@[0] == 'o' && "odt"@[1] == 'd' && "odt"@[2] == 't'
            && "rtf"@.len() == 3 && "rtf"@[0] == 'r' && "rtf"@[1] == 't' && "rtf"@[2] == 'f'
            && "epub"@.len() == 4 && "epub"@[0] == 'e' && "epub"@[1] == 'p' && "epub"@[2] == 'u' && "epub"@[3] == 'b'
            && "djvu"@.len() == 4 && "djvu"@[0] == 'd' && "djvu"@[1] == 'j' && "djvu"@[2] == 'v' && "djvu"@[3] == 'u'
            && "pages"@.len() == 5 && "pages"@[0] == 'p' && "pages"@[1] == 'a' && "pages"@[2] == 'g' && "pages"@[3] == 'e' && "pages"@[4] == 's'
            && "md"@.len() == 2 && "md"@[0] == 'm' && "md"@[1] == 'd'
            && "markdown"@.len() == 8 && "markdown"@[0] == 'm' && "markdown"@[1] == 'a' && "markdown"@[2] == 'r' && "markdown"@[3] == 'k' && "markdown"@[4] == 'd' && "markdown"@[5] == 'o' && "markdown"@[6] == 'w' && "markdown"@[7] == 'n'
            && "rst"@.len() == 3 && "rst"@[0] == 'r' && "rst"@[1] == 's' && "rst"@[2] == 't'
            && "adoc"@.len() == 4 && "adoc"@[0] == 'a' && "adoc"@[1] == 'd' && "adoc"@[2] == 'o' && "adoc"@[3] == 'c'
            && "tex"@.len() == 3 && "tex"@[0] == 't' && "tex"@[1] == 'e' && "tex"@[2] == 'x'
            && "latex"@.len() == 5 && "latex"@[0] == 'l' && "latex"@[1] == 'a' && "latex"@[2] == 't' && "latex"@[3] == 'e' && "latex"@[4] == 'x'
            && "xls"@.len() == 3 && "xls"@[0] == 'x' && "xls"@[1] == 'l' && "xls"@[2] == 's'
            && "xlsx"@.len() == 4 && "xlsx"@[0] == 'x' && "xlsx"@[1] == 'l' && "xlsx"@[2] == 's' && "xlsx"@[3] == 'x'
            && "ods"@.len() == 3 && "ods"@[0] == 'o' && "ods"@[1] == 'd' && "ods"@[2] == 's'
            && "csv"@.len() == 3 && "csv"@[0] == 'c' && "csv"@[1] == 's' && "csv"@[2] == 'v'
            && "tsv"@.len() == 3 && "tsv"@[0] == 't' && "tsv"@[1] == 's' && "tsv"@[2] == 'v'
            && "numbers"@.len() == 7 && "numbers"@[0] == 'n' && "numbers"@[1] == 'u' && "numbers"@[2] == 'm' && "numbers"@[3] == 'b' && "numbers"@[4] == 'e' && "numbers"@[5] == 'r' && "numbers"@[6] == 's'
            && "ppt"@.len() == 3 && "ppt"@[0] == 'p' && "ppt"@[1] == 'p' && "ppt"@[2] == 't'
            && "pptx"@.len() == 4 && "pptx"@[0] == 'p' && "pptx"@[1] == 'p' && "pptx"@[2] == 't' && "pptx"@[3] == 'x'
            && "odp"@.len() == 3 && "odp"@[0] == 'o' && "odp"@[1] == 'd' && "odp"@[2] == 'p'
            && "key"@.len() == 3 && "key"@[0] == 'k' && "key"@[1] == 'e' && "key"@[2] == 'y'
            && "odg"@.len() == 3 && "odg"@[0] == 'o' && "odg"@[1] == 'd' && "odg"@[2] == 'g'
            && "vsd"@.len() == 3 && "vsd"@[0] == 'v' && "vsd"@[1] == 's' && "vsd"@[2] == 'd'
            && "vsdx"@.len() == 4 && "vsdx"@[0] == 'v' && "vsdx"@[1] == 's' && "vsdx"@[2] == 'd' && "vsdx"@[3] == 'x'
            && "dia"@.len() == 3 && "dia"@[0] == 'd' && "dia"@[1] == 'i' && "dia"@[2] == 'a'
            && "zip"@.len() == 3 && "zip"@[0] == 'z' && "zip"@[1] == 'i' && "zip"@[2] == 'p'
            && "tar"@.len() == 3 && "tar"@[0] == 't' && "tar"@[1] == 'a' && "tar"@[2] == 'r'
            && "gz"@.len() == 2 && "gz"@[0] == 'g' && "gz"@[1] == 'z'
            && "bz2"@.len() == 3 && "bz2"@[0] == 'b' && "bz2"@[1] == 'z' && "bz2"@[2] == '2'
            && "xz"@.len() == 2 && "xz"@[0] == 'x' && "xz"@[1] == 'z'
            && "zst"@.len() == 3 && "zst"@[0] == 'z' && "zst"@[1] == 's' && "zst"@[2] == 't'
            && "lz4"@.len() == 3 && "lz4"@[0] == 'l' && "lz4"@[1] == 'z' && "lz4"@[2] == '4'
            && "lzma"@.len() == 4 && "lzma"@[0] == 'l' && "lzma"@[1] == 'z' && "lzma"@[2] == 'm' && "lzma"@[3] == 'a'
            && "7z"@.len() == 2 && "7z"@[0] == '7' && "7z"@[1] == 'z'
            && "rar"@.len() == 3 && "rar"@[0] == 'r' && "rar"@[1] == 'a' && "rar"@[2] == 'r'
            && "deb"@.len() == 3 && "deb"@[0] == 'd' && "deb"@[1] == 'e' && "deb"@[2] == 'b'
            && "rpm"@.len() == 3 && "rpm"@[0] == 'r' && "rpm"@[1] == 'p' && "rpm"@[2] == 'm'
            && "flatpak"@.len() == 7 && "flatpak"@[0] == 'f' && "flatpak"@[1] == 'l' && "flatpak"@[2] == 'a' && "flatpak"@[3] == 't' && "flatpak"@[4] == 'p' && "flatpak"@[5] == 'a' && "flatpak"@[6] == 'k'
            && "snap"@.len() == 4 && "snap"@[0] == 's' && "snap"@[1] == 'n' && "snap"@[2] == 'a' && "snap"@[3] == 'p'
            && "cab"@.len() == 3 && "cab"@[0] == 'c' && "cab"@[1] == 'a' && "cab"@[2] == 'b'
            && "cpio"@.len() == 4 && "cpio"@[0] == 'c' && "cpio"@[1] == 'p' && "cpio"@[2] == 'i' && "cpio"@[3] == 'o'
            && "ar"@.len() == 2 && "ar"@[0] == 'a' && "ar"@[1] == 'r'
            && "tgz"@.len() == 3 && "tgz"@[0] == 't' && "tgz"@[1] == 'g' && "tgz"@[2] == 'z'
            && "tbz2"@.len() == 4 && "tbz2"@[0] == 't' && "tbz2"@[1] == 'b' && "tbz2"@[2] == 'z' && "tbz2"@[3] == '2'
            && "txz"@.len() == 3 && "txz"@[0] == 't' && "txz"@[1] == 'x' && "txz"@[2] == 'z'
            && "ttf"@.len() == 3 && "ttf"@[0] == 't' && "ttf"@[1] == 't' && "ttf"@[2] == 'f'
            && "otf"@.len() == 3 && "otf"@[0] == 'o' && "otf"@[1] == 't' && "otf"@[2] == 'f'
            && "woff"@.len() == 4 && "woff"@[0] == 'w' && "woff"@[1] == 'o' && "woff"@[2] == 'f' && "woff"@[3] == 'f'
            && "woff2"@.len() == 5 && "woff2"@[0] == 'w' && "woff2"@[1] == 'o' && "woff2"@[2] == 'f' && "woff2"@[3] == 'f' && "woff2"@[4] == '2'
            && "eot"@.len() == 3 && "eot"@[0] == 'e' && "eot"@[1] == 'o' && "eot"@[2] == 't'
            && "exe"@.len() == 3 && "exe"@[0] == 'e' && "exe"@[1] == 'x' && "exe"@[2] == 'e'
            && "msi"@.len() == 3 && "msi"@[0] == 'm' && "msi"@[1] == 's' && "msi"@[2] == 'i'
            && "bin"@.len() == 3 && "bin"@[0] == 'b' && "bin"@[1] == 'i' && "bin"@[2] == 'n'
            && "appimage"@.len() == 8 && "appimage"@[0] == 'a' && "appimage"@[1] == 'p' && "appimage"@[2] == 'p' && "appimage"@[3] == 'i' && "appimage"@[4] == 'm' && "appimage"@[5] == 'a' && "appimage"@[6] == 'g' && "appimage"@[7] == 'e'
            && "run"@.len() == 3 && "run"@[0] == 'r' && "run"@[1] == 'u' && "run"@[2] == 'n'
            && "dmg"@.len() == 3 && "dmg"@[0] == 'd' && "dmg"@[1] == 'm' && "dmg"@[2] == 'g'
            && "pkg"@.len() == 3 && "pkg"@[0] == 'p' && "pkg"@[1] == 'k' && "pkg"@[2] == 'g'
            && "so"@.len() == 2 && "so"@[0] == 's' && "so"@[1] == 'o'
            && "dll"@.len() == 3 && "dll"@[0] == 'd' && "dll"@[1] == 'l' && "dll"@[2] == 'l'
            && "dylib"@.len() == 5 && "dylib"@[0] == 'd' && "dylib"@[1] == 'y' && "dylib"@[2] == 'l' && "dylib"@[3] == 'i' && "dylib"@[4] == 'b'
            && "iso"@.len() == 3 && "iso"@[0] == 'i' && "iso"@[1] == 's' && "iso"@[2] == 'o'
            && "img"@.len() == 3 && "img"@[0] == 'i' && "img"@[1] == 'm' && "img"@[2] == 'g'
            && "pem"@.len() == 3 && "pem"@[0] == 'p' && "pem"@[1] == 'e' && "pem"@[2] == 'm'
            && "crt"@.len() == 3 && "crt"@[0] == 'c' && "crt"@[1] == 'r' && "crt"@[2] == 't'
            && "cer"@.len() == 3 && "cer"@[0] == 'c' && "cer"@[1] == 'e' && "cer"@[2] == 'r'
            && "p12"@.len() == 3 && "p12"@[0] == 'p' && "p12"@[1] == '1' && "p12"@[2] == '2'
            && "pfx"@.len() == 3 && "pfx"@[0] == 'p' && "pfx"@[1] == 'f' && "pfx"@[2] == 'x'
            && "xpi"@.len() == 3 && "xpi"@[0] == 'x' && "xpi"@[1] == 'p' && "xpi"@[2] == 'i'
            && "crx"@.len() == 3 && "crx"@[0] == 'c' && "crx"@[1] == 'r' && "crx"@[2] == 'x'
            && "fw"@.len() == 2 && "fw"@[0] == 'f' && "fw"@[1] == 'w'
            && "rom"@.len() == 3 && "rom"@[0] == 'r' && "rom"@[1] == 'o' && "rom"@[2] == 'm'
            && "bios"@.len() == 4 && "bios"@[0] == 'b' && "bios"@[1] == 'i' && "bios"@[2] == 'o' && "bios"@[3] == 's'
            && "rss"@.len() == 3 && "rss"@[0] == 'r' && "rss"@[1] == 's' && "rss"@[2] == 's'
            && "atom"@.len() == 4 && "atom"@[0] == 'a' && "atom"@[1] == 't' && "atom"@[2] == 'o' && "atom"@[3] == 'm'
            && "vcf"@.len() == 3 && "vcf"@[0] == 'v' && "vcf"@[1] == 'c' && "vcf"@[2] == 'f'
            && "vcard"@.len() == 5 && "vcard"@[0] == 'v' && "vcard"@[1] == 'c' && "vcard"@[2] == 'a' && "vcard"@[3] == 'r' && "vcard"@[4] == 'd'
            && "ics"@.len() == 3 && "ics"@[0] == 'i' && "ics"@[1] == 'c' && "ics"@[2] == 's'
            && "ical"@.len() == 4 && "ical"@[0] == 'i' && "ical"@[1] == 'c' && "ical"@[2] == 'a' && "ical"@[3] == 'l'
            && "hpp"@.len() == 3 && "hpp"@[0] == 'h' && "hpp"@[1] == 'p' && "hpp"@[2] == 'p'
            && "hxx"@.len() == 3 && "hxx"@[0] == 'h' && "hxx"@[1] == 'x' && "hxx"@[2] == 'x'
            && "java"@.len() == 4 && "java"@[0] == 'j' && "java"@[1] == 'a' && "java"@[2] == 'v' && "java"@[3] == 'a'
            && "kt"@.len() == 2 && "kt"@[0] == 'k' && "kt"@[1] == 't'
            && "kts"@.len() == 3 && "kts"@[0] == 'k' && "kts"@[1] == 't' && "kts"@[2] == 's'
            && "swift"@.len() == 5 && "swift"@[0] == 's' && "swift"@[1] == 'w' && "swift"@[2] == 'i' && "swift"@[3] == 'f' && "swift"@[4] == 't'
            && "dart"@.len() == 4 && "dart"@[0] == 'd' && "dart"@[1] == 'a' && "dart"@[2] == 'r' && "dart"@[3] == 't'
            && "cs"@.len() == 2 && "cs"@[0] == 'c' && "cs"@[1] == 's'
            && "vb"@.len() == 2 && "vb"@[0] == 'v' && "vb"@[1] == 'b'
            && "fs"@.len() == 2 && "fs"@[0] == 'f' && "fs"@[1] == 's'
            && "r"@.len() == 1 && "r"@[0] == 'r'
    );
}

/// Source, script, markup and configuration extensions of the table
/// (part 4) get the generic text icon.
proof fn lemma_icons_code_4()
    ensures
        icon_for_extension("scala"@) == "text-x-generic-symbolic"@,
        icon_for_extension("groovy"@) == "text-x-generic-symbolic"@,
        icon_for_extension("clj"@) == "text-x-generic-symbolic"@,
        icon_for_extension("ex"@) == "text-x-generic-symbolic"@,
        icon_for_extension("exs"@) == "text-x-generic-symbolic"@,
        icon_for_extension("erl"@) == "text-x-generic-symbolic"@,
        icon_for_extension("hs"@) == "text-x-generic-symbolic"@,
        icon_for_extension("ml"@) == "text-x-generic-symbolic"@,
        icon_for_extension("mli"@) == "text-x-generic-symbolic"@,
        icon_for_extension("ps1"@) == "text-x-generic-symbolic"@,
        icon_for_extension("bat"@) == "text-x-generic-symbolic"@,
{
    reveal_strlit("jpg");
    reveal_strlit("jpeg");
    reveal_strlit("png");
    reveal_strlit("gif");
    reveal_strlit("svg");
    reveal_strlit("webp");
    reveal_strlit("bmp");
    reveal_strlit("ico");
    reveal_strlit("tiff");
    reveal_strlit("tif");
    reveal_strlit("heic");
    reveal_strlit("heif");
    reveal_strlit("avif");
    reveal_strlit("raw");
    reveal_strlit("cr2");
    reveal_strlit("nef");
    reveal_strlit("psd");
    reveal_strlit("xcf");
    reveal_strlit("mp3");
    reveal_strlit("flac");
    reveal_strlit("ogg");
    reveal_strlit("oga");
    reveal_strlit("wav");
    reveal_strlit("aac");
    reveal_strlit("wma");
    reveal_strlit("m4a");
    reveal_strlit("opus");
    reveal_strlit("aiff");
    reveal_strlit("mid");
    reveal_strlit("midi");
    reveal_strlit("ac3");
    reveal_strlit("mp4");
    reveal_strlit("mkv");
    reveal_strlit("avi");
    reveal_strlit("webm");
    reveal_strlit("mov");
    reveal_strlit("wmv");
    reveal_strlit("flv");
    reveal_strlit("m4v");
    reveal_strlit("mpg");
    reveal_strlit("mpeg");
    reveal_strlit("3gp");
    reveal_strlit("ogv");
    reveal_strlit("pdf");
    reveal_strlit("doc");
    reveal_strlit("docx");
    reveal_strlit("odt");
    reveal_strlit("rtf");
    reveal_strlit("epub");
    reveal_strlit("djvu");
    reveal_strlit("pages");
    reveal_strlit("md");
    reveal_strlit("markdown");
    reveal_strlit("rst");
    reveal_strlit("adoc");
    reveal_strlit("tex");
    reveal_strlit("latex");
    reveal_strlit("xls");
    reveal_strlit("xlsx");
    reveal_strlit("ods");
    reveal_strlit("csv");
    reveal_strlit("tsv");
    reveal_strlit("numbers");
    reveal_strlit("ppt");
    reveal_strlit("pptx");
    reveal_strlit("odp");
    reveal_strlit("key");
    reveal_strlit("odg");
    reveal_strlit("vsd");
    reveal_strlit("vsdx");
    reveal_strlit("dia");
    reveal_strlit("zip");
    reveal_strlit("tar");
    reveal_strlit("gz");
    reveal_strlit("bz2");
    reveal_strlit("xz");
    reveal_strlit("zst");
    reveal_strlit("lz4");
    reveal_strlit("lzma");
    reveal_strlit("7z");
    reveal_strlit("rar");
    reveal_strlit("deb");
    reveal_strlit("rpm");
    reveal_strlit("flatpak");
    reveal_strlit("snap");
    reveal_strlit("cab");
    reveal_strlit("cpio");
    reveal_strlit("ar");
    reveal_strlit("tgz");
    reveal_strlit("tbz2");
    reveal_strlit("txz");
    reveal_strlit("ttf");
    reveal_strlit("otf");
    reveal_strlit("woff");
    reveal_strlit("woff2");
    reveal_strlit("eot");
    reveal_strlit("exe");
    reveal_strlit("msi");
    reveal_strlit("bin");
    reveal_strlit("appimage");
    reveal_strlit("run");
    reveal_strlit("dmg");
    reveal_strlit("pkg");
    reveal_strlit("so");
    reveal_strlit("dll");
    reveal_strlit("dylib");
    reveal_strlit("iso");
    reveal_strlit("img");
    reveal_strlit("pem");
    reveal_strlit("crt");
    reveal_strlit("cer");
    reveal_strlit("p12");
    reveal_strlit("pfx");
    reveal_strlit("xpi");
    reveal_strlit("crx");
    reveal_strlit("fw");
    reveal_strlit("rom");
    reveal_strlit("bios");
    reveal_strlit("rss");
    reveal_strlit("atom");
    reveal_strlit("vcf");
    reveal_strlit("vcard");
    reveal_strlit("ics");
    reveal_strlit("ical");
    reveal_strlit("scala");
    reveal_strlit("groovy");
    reveal_strlit("clj");
    reveal_strlit("ex");
    reveal_strlit("exs");
    reveal_strlit("erl");
    reveal_strlit("hs");
    reveal_strlit("ml");
    reveal_strlit("mli");
    reveal_strlit("ps1");
    reveal_strlit("bat");
    assert(
        "jpg"@.len() == 3 && "jpg"@[0] == 'j' && "jpg"@[1] == 'p' && "jpg"@[2] == 'g'
            && "jpeg"@.len() == 4 && "jpeg"@[0] == 'j' && "jpeg"@[1] == 'p' && "jpeg"@[2] == 'e' && "jpeg"@[3] == 'g'
            && "png"@.len() == 3 && "png"@[0] == 'p' && "png"@[1] == 'n' && "png"@[2] == 'g'
            && "gif"@.len() == 3 && "gif"@[0] == 'g' && "gif"@[1] == 'i' && "gif"@[2] == 'f'
            && "svg"@.len() == 3 && "svg"@[0] == 's' && "svg"@[1] == 'v' && "svg"@[2] == 'g'
            && "webp"@.len() == 4 && "webp"@[0] == 'w' && "webp"@[1] == 'e' && "webp"@[2] == 'b' && "webp"@[3] == 'p'
            && "bmp"@.len() == 3 && "bmp"@[0] == 'b' && "bmp"@[1] == 'm' && "bmp"@[2] == 'p'
            && "ico"@.len() == 3 && "ico"@[0] == 'i' && "ico"@[1] == 'c' && "ico"@[2] == 'o'
            && "tiff"@.len() == 4 && "tiff"@[0] == 't' && "tiff"@[1] == 'i' && "tiff"@[2] == 'f' && "tiff"@[3] == 'f'
            && "tif"@.len() == 3 && "tif"@[0] == 't' && "tif"@[1] == 'i' && "tif"@[2] == 'f'
            && "heic"@.len() == 4 && "heic"@[0] == 'h' && "heic"@[1] == 'e' && "heic"@[2] == 'i' && "heic"@[3] == 'c'
            && "heif"@.len() == 4 && "heif"@[0] == 'h' && "heif"@[1] == 'e' && "heif"@[2] == 'i' && "heif"@[3] == 'f'
            && "avif"@.len() == 4 && "avif"@[0] == 'a' && "avif"@[1] == 'v' && "avif"@[2] == 'i' && "avif"@[3] == 'f'
            && "raw"@.len() == 3 && "raw"@[0] == 'r' && "raw"@[1] == 'a' && "raw"@[2] == 'w'
            && "cr2"@.len() == 3 && "cr2"@[0] == 'c' && "cr2"@[1] == 'r' && "cr2"@[2] == '2'
            && "nef"@.len() == 3 && "nef"@[0] == 'n' && "nef"@[1] == 'e' && "nef"@[2] == 'f'
            && "psd"@.len() == 3 && "psd"@[0] == 'p' && "psd"@[1] == 's' && "psd"@[2] == 'd'
            && "xcf"@.len() == 3 && "xcf"@[0] == 'x' && "xcf"@[1] == 'c' && "xcf"@[2] == 'f'
            && "mp3"@.len() == 3 && "mp3"@[0] == 'm' && "mp3"@[1] == 'p' && "mp3"@[2] == '3'
            && "flac"@.len() == 4 && "flac"@[0] == 'f' && "flac"@[1] == 'l' && "flac"@[2] == 'a' && "flac"@[3] == 'c'
            && "ogg"@.len() == 3 && "ogg"@[0] == 'o' && "ogg"@[1] == 'g' && "ogg"@[2] == 'g'
            && "oga"@.len() == 3 && "oga"@[0] == 'o' && "oga"@[1] == 'g' && "oga"@[2] == 'a'
            && "wav"@.len() == 3 && "wav"@[0] == 'w' && "wav"@[1] == 'a' && "wav"@[2] == 'v'
            && "aac"@.len() == 3 && "aac"@[0] == 'a' && "aac"@[1] == 'a' && "aac"@[2] == 'c'
            && "wma"@.len() == 3 && "wma"@[0] == 'w' && "wma"@[1] == 'm' && "wma"@[2] == 'a'
            && "m4a"@.len() == 3 && "m4a"@[0] == 'm' && "m4a"@[1] == '4' && "m4a"@[2] == 'a'
            && "opus"@.len() == 4 && "opus"@[0] == 'o' && "opus"@[1] == 'p' && "opus"@[2] == 'u' && "opus"@[3] == 's'
            && "aiff"@.len() == 4 && "aiff"@[0] == 'a' && "aiff"@[1] == 'i' && "aiff"@[2] == 'f' && "aiff"@[3] == 'f'
            && "mid"@.len() == 3 && "mid"@[0] == 'm' && "mid"@[1] == 'i' && "mid"@[2] == 'd'
            && "midi"@.len() == 4 && "midi"@[0] == 'm' && "midi"@[1] == 'i' && "midi"@[2] == 'd' && "midi"@[3] == 'i'
            && "ac3"@.len() == 3 && "ac3"@[0] == 'a' && "ac3"@[1] == 'c' && "ac3"@[2] == '3'
            && "mp4"@.len() == 3 && "mp4"@[0] == 'm' && "mp4"@[1] == 'p' && "mp4"@[2] == '4'
            && "mkv"@.len() == 3 && "mkv"@[0] == 'm' && "mkv"@[1] == 'k' && "mkv"@[2] == 'v'
            && "avi"@.len() == 3 && "avi"@[0] == 'a' && "avi"@[1] == 'v' && "avi"@[2] == 'i'
            && "webm"@.len() == 4 && "webm"@[0] == 'w' && "webm"@[1] == 'e' && "webm"@[2] == 'b' && "webm"@[3] == 'm'
            && "mov"@.len() == 3 && "mov"@[0] == 'm' && "mov"@[1] == 'o' && "mov"@[2] == 'v'
            && "wmv"@.len() == 3 && "wmv"@[0] == 'w' && "wmv"@[1] == 'm' && "wmv"@[2] == 'v'
            && "flv"@.len() == 3 && "flv"@[0] == 'f' && "flv"@[1] == 'l' && "flv"@[2] == 'v'
            && "m4v"@.len() == 3 && "m4v"@[0] == 'm' && "m4v"@[1] == '4' && "m4v"@[2] == 'v'
            && "mpg"@.len() == 3 && "mpg"@[0] == 'm' && "mpg"@[1] == 'p' && "mpg"@[2] == 'g'
            && "mpeg"@.len() == 4 && "mpeg"@[0] == 'm' && "mpeg"@[1] == 'p' && "mpeg"@[2] == 'e' && "mpeg"@[3] == 'g'
            && "3gp"@.len() == 3 && "3gp"@[0] == '3' && "3gp"@[1] == 'g' && "3gp"@[2] == 'p'
            && "ogv"@.len() == 3 && "ogv"@[0] == 'o' && "ogv"@[1] == 'g' && "ogv"@[2] == 'v'
            && "pdf"@.len() == 3 && "pdf"@[0] == 'p' && "pdf"@[1] == 'd' && "pdf"@[2] == 'f'
            && "doc"@.len() == 3 && "doc"@[0] == 'd' && "doc"@[1] == 'o' && "doc"@[2] == 'c'
            && "docx"@.len() == 4 && "docx"@[0] == 'd' && "docx"@[1] == 'o' && "docx"@[2] == 'c' && "docx"@[3] == 'x'
            && "odt"@.len() == 3 && "odt"@[0] == 'o' && "odt"@[1] == 'd' && "odt"@[2] == 't'
            && "rtf"@.len() == 3 && "rtf"@[0] == 'r' && "rtf"@[1] == 't' && "rtf"@[2] == 'f'
            && "epub"@.len() == 4 && "epub"@[0] == 'e' && "epub"@[1] == 'p' && "epub"@[2] == 'u' && "epub"@[3] == 'b'
            && "djvu"@.len() == 4 && "djvu"@[0] == 'd' && "djvu"@[1] == 'j' && "djvu"@[2] == 'v' && "djvu"@[3] == 'u'
            && "pages"@.len() == 5 && "pages"@[0] == 'p' && "pages"@[1] == 'a' && "pages"@[2] == 'g' && "pages"@[3] == 'e' && "pages"@[4] == 's'
            && "md"@.len() == 2 && "md"@[0] == 'm' && "md"@[1] == 'd'
            && "markdown"@.len() == 8 && "markdown"@[0] == 'm' && "markdown"@[1] == 'a' && "markdown"@[2] == 'r' && "markdown"@[3] == 'k' && "markdown"@[4] == 'd' && "markdown"@[5] == 'o' && "markdown"@[6] == 'w' && "markdown"@[7] == 'n'
            && "rst"@.len() == 3 && "rst"@[0] == 'r' && "rst"@[1] == 's' && "rst"@[2] == 't'
            && "adoc"@.len() == 4 && "adoc"@[0] == 'a' && "adoc"@[1] == 'd' && "adoc"@[2] == 'o' && "adoc"@[3] == 'c'
            && "tex"@.len() == 3 && "tex"@[0] == 't' && "tex"@[1] == 'e' && "tex"@[2] == 'x'
            && "latex"@.len() == 5 && "latex"@[0] == 'l' && "latex"@[1] == 'a' && "latex"@[2] == 't' && "latex"@[3] == 'e' && "latex"@[4] == 'x'
            && "xls"@.len() == 3 && "xls"@[0] == 'x' && "xls"@[1] == 'l' && "xls"@[2] == 's'
            && "xlsx"@.len() == 4 && "xlsx"@[0] == 'x' && "xlsx"@[1] == 'l' && "xlsx"@[2] == 's' && "xlsx"@[3] == 'x'
            && "ods"@.len() == 3 && "ods"@[0] == 'o' && "ods"@[1] == 'd' && "ods"@[2] == 's'
            && "csv"@.len() == 3 && "csv"@[0] == 'c' && "csv"@[1] == 's' && "csv"@[2] == 'v'
            && "tsv"@.len() == 3 && "tsv"@[0] == 't' && "tsv"@[1] == 's' && "tsv"@[2] == 'v'
            && "numbers"@.len() == 7 && "numbers"@[0] == 'n' && "numbers"@[1] == 'u' && "numbers"@[2] == 'm' && "numbers"@[3] == 'b' && "numbers"@[4] == 'e' && "numbers"@[5] == 'r' && "numbers"@[6] == 's'
            && "ppt"@.len() == 3 && "ppt"@[0] == 'p' && "ppt"@[1] == 'p' && "ppt"@[2] == 't'
            && "pptx"@.len() == 4 && "pptx"@[0] == 'p' && "pptx"@[1] == 'p' && "pptx"@[2] == 't' && "pptx"@[3] == 'x'
            && "odp"@.len() == 3 && "odp"@[0] == 'o' && "odp"@[1] == 'd' && "odp"@[2] == 'p'
            && "key"@.len() == 3 && "key"@[0] == 'k' && "key"@[1] == 'e' && "key"@[2] == 'y'
            && "odg"@.len() == 3 && "odg"@[0] == 'o' && "odg"@[1] == 'd' && "odg"@[2] == 'g'
            && "vsd"@.len() == 3 && "vsd"@[0] == 'v' && "vsd"@[1] == 's' && "vsd"@[2] == 'd'
            && "vsdx"@.len() == 4 && "vsdx"@[0] == 'v' && "vsdx"@[1] == 's' && "vsdx"@[2] == 'd' && "vsdx"@[3] == 'x'
            && "dia"@.len() == 3 && "dia"@[0] == 'd' && "dia"@[1] == 'i' && "dia"@[2] == 'a'
            && "zip"@.len() == 3 && "zip"@[0] == 'z' && "zip"@[1] == 'i' && "zip"@[2] == 'p'
            && "tar"@.len() == 3 && "tar"@[0] == 't' && "tar"@[1] == 'a' && "tar"@[2] == 'r'
            && "gz"@.len() == 2 && "gz"@[0] == 'g' && "gz"@[1] == 'z'
            && "bz2"@.len() == 3 && "bz2"@[0] == 'b' && "bz2"@[1] == 'z' && "bz2"@[2] == '2'
            && "xz"@.len() == 2 && "xz"@[0] == 'x' && "xz"@[1] == 'z'
            && "zst"@.len() == 3 && "zst"@[0] == 'z' && "zst"@[1] == 's' && "zst"@[2] == 't'
            && "lz4"@.len() == 3 && "lz4"@[0] == 'l' && "lz4"@[1] == 'z' && "lz4"@[2] == '4'
            && "lzma"@.len() == 4 && "lzma"@[0] == 'l' && "lzma"@[1] == 'z' && "lzma"@[2] == 'm' && "lzma"@[3] == 'a'
            && "7z"@.len() == 2 && "7z"@[0] == '7' && "7z"@[1] == 'z'
            && "rar"@.len() == 3 && "rar"@[0] == 'r' && "rar"@[1] == 'a' && "rar"@[2] == 'r'
            && "deb"@.len() == 3 && "deb"@[0] == 'd' && "deb"@[1] == 'e' && "deb"@[2] == 'b'
            && "rpm"@.len() == 3 && "rpm"@[0] == 'r' && "rpm"@[1] == 'p' && "rpm"@[2] == 'm'
            && "flatpak"@.len() == 7 && "flatpak"@[0] == 'f' && "flatpak"@[1] == 'l' && "flatpak"@[2] == 'a' && "flatpak"@[3] == 't' && "flatpak"@[4] == 'p' && "flatpak"@[5] == 'a' && "flatpak"@[6] == 'k'
            && "snap"@.len() == 4 && "snap"@[0] == 's' && "snap"@[1] == 'n' && "snap"@[2] == 'a' && "snap"@[3] == 'p'
            && "cab"@.len() == 3 && "cab"@[0] == 'c' && "cab"@[1] == 'a' && "cab"@[2] == 'b'
            && "cpio"@.len() == 4 && "cpio"@[0] == 'c' && "cpio"@[1] == 'p' && "cpio"@[2] == 'i' && "cpio"@[3] == 'o'
            && "ar"@.len() == 2 && "ar"@[0] == 'a' && "ar"@[1] == 'r'
            && "tgz"@.len() == 3 && "tgz"@[0] == 't' && "tgz"@[1] == 'g' && "tgz"@[2] == 'z'
            && "tbz2"@.len() == 4 && "tbz2"@[0] == 't' && "tbz2"@[1] == 'b' && "tbz2"@[2] == 'z' && "tbz2"@[3] == '2'
            && "txz"@.len() == 3 && "txz"@[0] == 't' && "txz"@[1] == 'x' && "txz"@[2] == 'z'
            && "ttf"@.len() == 3 && "ttf"@[0] == 't' && "ttf"@[1] == 't' && "ttf"@[2] == 'f'
            && "otf"@.len() == 3 && "otf"@[0] == 'o' && "otf"@[1] == 't' && "otf"@[2] == 'f'
            && "woff"@.len() == 4 && "woff"@[0] == 'w' && "woff"@[1] == 'o' && "woff"@[2] == 'f' && "woff"@[3] == 'f'
            && "woff2"@.len() == 5 && "woff2"@[0] == 'w' && "woff2"@[1] == 'o' && "woff2"@[2] == 'f' && "woff2"@[3] == 'f' && "woff2"@[4] == '2'
            && "eot"@.len() == 3 && "eot"@[0] == 'e' && "eot"@[1] == 'o' && "eot"@[2] == 't'
            && "exe"@.len() == 3 && "exe"@[0] == 'e' && "exe"@[1] == 'x' && "exe"@[2] == 'e'
            && "msi"@.len() == 3 && "msi"@[0] == 'm' && "msi"@[1] == 's' && "msi"@[2] == 'i'
            && "bin"@.len() == 3 && "bin"@[0] == 'b' && "bin"@[1] == 'i' && "bin"@[2] == 'n'
            && "appimage"@.len() == 8 && "appimage"@[0] == 'a' && "appimage"@[1] == 'p' && "appimage"@[2] == 'p' && "appimage"@[3] == 'i' && "appimage"@[4] == 'm' && "appimage"@[5] == 'a' && "appimage"@[6] == 'g' && "appimage"@[7] == 'e'
            && "run"@.len() == 3 && "run"@[0] == 'r' && "run"@[1] == 'u' && "run"@[2] == 'n'
            && "dmg"@.len() == 3 && "dmg"@[0] == 'd' && "dmg"@[1] == 'm' && "dmg"@[2] == 'g'
            && "pkg"@.len() == 3 && "pkg"@[0] == 'p' && "pkg"@[1] == 'k' && "pkg"@[2] == 'g'
            && "so"@.len() == 2 && "so"@[0] == 's' && "so"@[1] == 'o'
            && "dll"@.len() == 3 && "dll"@[0] == 'd' && "dll"@[1] == 'l' && "dll"@[2] == 'l'
            && "dylib"@.len() == 5 && "dylib"@[0] == 'd' && "dylib"@[1] == 'y' && "dylib"@[2] == 'l' && "dylib"@[3] == 'i' && "dylib"@[4] == 'b'
            && "iso"@.len() == 3 && "iso"@[0] == 'i' && "iso"@[1] == 's' && "iso"@[2] == 'o'
            && "img"@.len() == 3 && "img"@[0] == 'i' && "img"@[1] == 'm' && "img"@[2] == 'g'
            && "pem"@.len() == 3 && "pem"@[0] == 'p' && "pem"@[1] == 'e' && "pem"@[2] == 'm'
            && "crt"@.len() == 3 && "crt"@[0] == 'c' && "crt"@[1] == 'r' && "crt"@[2] == 't'
            && "cer"@.len() == 3 && "cer"@[0] == 'c' && "cer"@[1] == 'e' && "cer"@[2] == 'r'
            && "p12"@.len() == 3 && "p12"@[0] == 'p' && "p12"@[1] == '1' && "p12"@[2] == '2'
            && "pfx"@.len() == 3 && "pfx"@[0] == 'p' && "pfx"@[1] == 'f' && "pfx"@[2] == 'x'
            && "xpi"@.len() == 3 && "xpi"@[0] == 'x' && "xpi"@[1] == 'p' && "xpi"@[2] == 'i'
            && "crx"@.len() == 3 && "crx"@[0] == 'c' && "crx"@[1] == 'r' && "crx"@[2] == 'x'
            && "fw"@.len() == 2 && "fw"@[0] == 'f' && "fw"@[1] == 'w'
            && "rom"@.len() == 3 && "rom"@[0] == 'r' && "rom"@[1] == 'o' && "rom"@[2] == 'm'
            && "bios"@.len() == 4 && "bios"@[0] == 'b' && "bios"@[1] == 'i' && "bios"@[2] == 'o' && "bios"@[3] == 's'
            && "rss"@.len() == 3 && "rss"@[0] == 'r' && "rss"@[1] == 's' && "rss"@[2] == 's'
            && "atom"@.len() == 4 && "atom"@[0] == 'a' && "atom"@[1] == 't' && "atom"@[2] == 'o' && "atom"@[3] == 'm'
            && "vcf"@.len() == 3 && "vcf"@[0] == 'v' && "vcf"@[1] == 'c' && "vcf"@[2] == 'f'
            && "vcard"@.len() == 5 && "vcard"@[0] == 'v' && "vcard"@[1] == 'c' && "vcard"@[2] == 'a' && "vcard"@[3] == 'r' && "vcard"@[4] == 'd'
            && "ics"@.len() == 3 && "ics"@[0] == 'i' && "ics"@[1] == 'c' && "ics"@[2] == 's'
            && "ical"@.len() == 4 && "ical"@[0] == 'i' && "ical"@[1] == 'c' && "ical"@[2] == 'a' && "ical"@[3] == 'l'
            && "scala"@.len() == 5 && "scala"@[0] == 's' && "scala"@[1] == 'c' && "scala"@[2] == 'a' && "scala"@[3] == 'l' && "scala"@[4] == 'a'
            && "groovy"@.len() == 6 && "groovy"@[0] == 'g' && "groovy"@[1] == 'r' && "groovy"@[2] == 'o' && "groovy"@[3] == 'o' && "groovy"@[4] == 'v' && "groovy"@[5] == 'y'
            && "clj"@.len() == 3 && "clj"@[0] == 'c' && "clj"@[1] == 'l' && "clj"@[2] == 'j'
            && "ex"@.len() == 2 && "ex"@[0] == 'e' && "ex"@[1] == 'x'
            && "exs"@.len() == 3 && "exs"@[0] == 'e' && "exs"@[1] == 'x' && "exs"@[2] == 's'
            && "erl"@.len() == 3 && "erl"@[0] == 'e' && "erl"@[1] == 'r' && "erl"@[2] == 'l'
            && "hs"@.len() == 2 && "hs"@[0] == 'h' && "hs"@[1] == 's'
            && "ml"@.len() == 2 && "ml"@[0] == 'm' && "ml"@[1] == 'l'
            && "mli"@.len() == 3 && "mli"@[0] == 'm' && "mli"@[1] == 'l' && "mli"@[2] == 'i'
            && "ps1"@.len() == 3 && "ps1"@[0] == 'p' && "ps1"@[1] == 's' && "ps1"@[2] == '1'
            && "bat"@.len() == 3 && "bat"@[0] == 'b' && "bat"@[1] == 'a' && "bat"@[2] == 't'
    );
}

/// Source, script, markup and configuration extensions of the table
/// (part 5) get the generic text icon.
proof fn lemma_icons_code_5()
    ensures
        icon_for_extension("cmd"@) == "text-x-generic-symbolic"@,
        icon_for_extension("vbs"@) == "text-x-generic-symbolic"@,
        icon_for_extension("awk"@) == "text-x-generic-symbolic"@,
        icon_for_extension("sed"@) == "text-x-generic-symbolic"@,
        icon_for_extension("m"@) == "text-x-generic-symbolic"@,
        icon_for_extension("mm"@) == "text-x-generic-symbolic"@,
        icon_for_extension("v"@) == "text-x-generic-symbolic"@,
        icon_for_extension("sv"@) == "text-x-generic-symbolic"@,
        icon_for_extension("vhdl"@) == "text-x-generic-symbolic"@,
        icon_for_extension("zig"@) == "text-x-generic-symbolic"@,
        icon_for_extension("nim"@) == "text-x-generic-symbolic"@,
{
    reveal_strlit("jpg");
    reveal_strlit("jpeg");
    reveal_strlit("png");
    reveal_strlit("gif");
    reveal_strlit("svg");
    reveal_strlit("webp");
    reveal_strlit("bmp");
    reveal_strlit("ico");
    reveal_strlit("tiff");
    reveal_strlit("tif");
    reveal_strlit("heic");
    reveal_strlit("heif");
    reveal_strlit("avif");
    reveal_strlit("raw");
    reveal_strlit("cr2");
    reveal_strlit("nef");
    reveal_strlit("psd");
    reveal_strlit("xcf");
    reveal_strlit("mp3");
    reveal_strlit("flac");
    reveal_strlit("ogg");
    reveal_strlit("oga");
    reveal_strlit("wav");
    reveal_strlit("aac");
    reveal_strlit("wma");
    reveal_strlit("m4a");
    reveal_strlit("opus");
    reveal_strlit("aiff");
    reveal_strlit("mid");
    reveal_strlit("midi");
    reveal_strlit("ac3");
    reveal_strlit("mp4");
    reveal_strlit("mkv");
    reveal_strlit("avi");
    reveal_strlit("webm");
    reveal_strlit("mov");
    reveal_strlit("wmv");
    reveal_strlit("flv");
    reveal_strlit("m4v");
    reveal_strlit("mpg");
    reveal_strlit("mpeg");
    reveal_strlit("3gp");
    reveal_strlit("ogv");
    reveal_strlit("pdf");
    reveal_strlit("doc");
    reveal_strlit("docx");
    reveal_strlit("odt");
    reveal_strlit("rtf");
    reveal_strlit("epub");
    reveal_strlit("djvu");
    reveal_strlit("pages");
    reveal_strlit("md");
    reveal_strlit("markdown");
    reveal_strlit("rst");
    reveal_strlit("adoc");
    reveal_strlit("tex");
    reveal_strlit("latex");
    reveal_strlit("xls");
    reveal_strlit("xlsx");
    reveal_strlit("ods");
    reveal_strlit("csv");
    reveal_strlit("tsv");
    reveal_strlit("numbers");
    reveal_strlit("ppt");
    reveal_strlit("pptx");
    reveal_strlit("odp");
    reveal_strlit("key");
    reveal_strlit("odg");
    reveal_strlit("vsd");
    reveal_strlit("vsdx");
    reveal_strlit("dia");
    reveal_strlit("zip");
    reveal_strlit("tar");
    reveal_strlit("gz");
    reveal_strlit("bz2");
    reveal_strlit("xz");
    reveal_strlit("zst");
    reveal_strlit("lz4");
    reveal_strlit("lzma");
    reveal_strlit("7z");
    reveal_strlit("rar");
    reveal_strlit("deb");
    reveal_strlit("rpm");
    reveal_strlit("flatpak");
    reveal_strlit("snap");
    reveal_strlit("cab");
    reveal_strlit("cpio");
    reveal_strlit("ar");
    reveal_strlit("tgz");
    reveal_strlit("tbz2");
    reveal_strlit("txz");
    reveal_strlit("ttf");
    reveal_strlit("otf");
    reveal_strlit("woff");
    reveal_strlit("woff2");
    reveal_strlit("eot");
    reveal_strlit("exe");
    reveal_strlit("msi");
    reveal_strlit("bin");
    reveal_strlit("appimage");
    reveal_strlit("run");
    reveal_strlit("dmg");
    reveal_strlit("pkg");
    reveal_strlit("so");
    reveal_strlit("dll");
    reveal_strlit("dylib");
    reveal_strlit("iso");
    reveal_strlit("img");
    reveal_strlit("pem");
    reveal_strlit("crt");
    reveal_strlit("cer");
    reveal_strlit("p12");
    reveal_strlit("pfx");
    reveal_strlit("xpi");
    reveal_strlit("crx");
    reveal_strlit("fw");
    reveal_strlit("rom");
    reveal_strlit("bios");
    reveal_strlit("rss");
    reveal_strlit("atom");
    reveal_strlit("vcf");
    reveal_strlit("vcard");
    reveal_strlit("ics");
    reveal_strlit("ical");
    reveal_strlit("cmd");
    reveal_strlit("vbs");
    reveal_strlit("awk");
    reveal_strlit("sed");
    reveal_strlit("m");
    reveal_strlit("mm");
    reveal_strlit("v");
    reveal_strlit("sv");
    reveal_strlit("vhdl");
    reveal_strlit("zig");
    reveal_strlit("nim");
    assert(
        "jpg"@.len() == 3 && "jpg"@[0] == 'j' && "jpg"@[1] == 'p' && "jpg"@[2] == 'g'
            && "jpeg"@.len() == 4 && "jpeg"@[0] == 'j' && "jpeg"@[1] == 'p' && "jpeg"@[2] == 'e' && "jpeg"@[3] == 'g'
            && "png"@.len() == 3 && "png"@[0] == 'p' && "png"@[1] == 'n' && "png"@[2] == 'g'
            && "gif"@.len() == 3 && "gif"@[0] == 'g' && "gif"@[1] == 'i' && "gif"@[2] == 'f'
            && "svg"@.len() == 3 && "svg"@[0] == 's' && "svg"@[1] == 'v' && "svg"@[2] == 'g'
            && "webp"@.len() == 4 && "webp"@[0] == 'w' && "webp"@[1] == 'e' && "webp"@[2] == 'b' && "webp"@[3] == 'p'
            && "bmp"@.len() == 3 && "bmp"@[0] == 'b' && "bmp"@[1] == 'm' && "bmp"@[2] == 'p'
            && "ico"@.len() == 3 && "ico"@[0] == 'i' && "ico"@[1] == 'c' && "ico"@[2] == 'o'
            && "tiff"@.len() == 4 && "tiff"@[0] == 't' && "tiff"@[1] == 'i' && "tiff"@[2] == 'f' && "tiff"@[3] == 'f'
            && "tif"@.len() == 3 && "tif"@[0] == 't' && "tif"@[1] == 'i' && "tif"@[2] == 'f'
            && "heic"@.len() == 4 && "heic"@[0] == 'h' && "heic"@[1] == 'e' && "heic"@[2] == 'i' && "heic"@[3] == 'c'
            && "heif"@.len() == 4 && "heif"@[0] == 'h' && "heif"@[1] == 'e' && "heif"@[2] == 'i' && "heif"@[3] == 'f'
            && "avif"@.len() == 4 && "avif"@[0] == 'a' && "avif"@[1] == 'v' && "avif"@[2] == 'i' && "avif"@[3] == 'f'
            && "raw"@.len() == 3 && "raw"@[0] == 'r' && "raw"@[1] == 'a' && "raw"@[2] == 'w'
            && "cr2"@.len() == 3 && "cr2"@[0] == 'c' && "cr2"@[1] == 'r' && "cr2"@[2] == '2'
            && "nef"@.len() == 3 && "nef"@[0] == 'n' && "nef"@[1] == 'e' && "nef"@[2] == 'f'
            && "psd"@.len() == 3 && "psd"@[0] == 'p' && "psd"@[1] == 's' && "psd"@[2] == 'd'
            && "xcf"@.len() == 3 && "xcf"@[0] == 'x' && "xcf"@[1] == 'c' && "xcf"@[2] == 'f'
            && "mp3"@.len() == 3 && "mp3"@[0] == 'm' && "mp3"@[1] == 'p' && "mp3"@[2] == '3'
            && "flac"@.len() == 4 && "flac"@[0] == 'f' && "flac"@[1] == 'l' && "flac"@[2] == 'a' && "flac"@[3] == 'c'
            && "ogg"@.len() == 3 && "ogg"@[0] == 'o' && "ogg"@[1] == 'g' && "ogg"@[2] == 'g'
            && "oga"@.len() == 3 && "oga"@[0] == 'o' && "oga"@[1] == 'g' && "oga"@[2] == 'a'
            && "wav"@.len() == 3 && "wav"@[0] == 'w' && "wav"@[1] == 'a' && "wav"@[2] == 'v'
            && "aac"@.len() == 3 && "aac"@[0] == 'a' && "aac"@[1] == 'a' && "aac"@[2] == 'c'
            && "wma"@.len() == 3 && "wma"@[0] == 'w' && "wma"@[1] == 'm' && "wma"@[2] == 'a'
            && "m4a"@.len() == 3 && "m4a"@[0] == 'm' && "m4a"@[1] == '4' && "m4a"@[2] == 'a'
            && "opus"@.len() == 4 && "opus"@[0] == 'o' && "opus"@[1] == 'p' && "opus"@[2] == 'u' && "opus"@[3] == 's'
            && "aiff"@.len() == 4 && "aiff"@[0] == 'a' && "aiff"@[1] == 'i' && "aiff"@[2] == 'f' && "aiff"@[3] == 'f'
            && "mid"@.len() == 3 && "mid"@[0] == 'm' && "mid"@[1] == 'i' && "mid"@[2] == 'd'
            && "midi"@.len() == 4 && "midi"@[0] == 'm' && "midi"@[1] == 'i' && "midi"@[2] == 'd' && "midi"@[3] == 'i'
            && "ac3"@.len() == 3 && "ac3"@[0] == 'a' && "ac3"@[1] == 'c' && "ac3"@[2] == '3'
            && "mp4"@.len() == 3 && "mp4"@[0] == 'm' && "mp4"@[1] == 'p' && "mp4"@[2] == '4'
            && "mkv"@.len() == 3 && "mkv"@[0] == 'm' && "mkv"@[1] == 'k' && "mkv"@[2] == 'v'
            && "avi"@.len() == 3 && "avi"@[0] == 'a' && "avi"@[1] == 'v' && "avi"@[2] == 'i'
            && "webm"@.len() == 4 && "webm"@[0] == 'w' && "webm"@[1] == 'e' && "webm"@[2] == 'b' && "webm"@[3] == 'm'
            && "mov"@.len() == 3 && "mov"@[0] == 'm' && "mov"@[1] == 'o' && "mov"@[2] == 'v'
            && "wmv"@.len() == 3 && "wmv"@[0] == 'w' && "wmv"@[1] == 'm' && "wmv"@[2] == 'v'
            && "flv"@.len() == 3 && "flv"@[0] == 'f' && "flv"@[1] == 'l' && "flv"@[2] == 'v'
            && "m4v"@.len() == 3 && "m4v"@[0] == 'm' && "m4v"@[1] == '4' && "m4v"@[2] == 'v'
            && "mpg"@.len() == 3 && "mpg"@[0] == 'm' && "mpg"@[1] == 'p' && "mpg"@[2] == 'g'
            && "mpeg"@.len() == 4 && "mpeg"@[0] == 'm' && "mpeg"@[1] == 'p' && "mpeg"@[2] == 'e' && "mpeg"@[3] == 'g'
            && "3gp"@.len() == 3 && "3gp"@[0] == '3' && "3gp"@[1] == 'g' && "3gp"@[2] == 'p'
            && "ogv"@.len() == 3 && "ogv"@[0] == 'o' && "ogv"@[1] == 'g' && "ogv"@[2] == 'v'
            && "pdf"@.len() == 3 && "pdf"@[0] == 'p' && "pdf"@[1] == 'd' && "pdf"@[2] == 'f'
            && "doc"@.len() == 3 && "doc"@[0] == 'd' && "doc"@[1] == 'o' && "doc"@[2] == 'c'
            && "docx"@.len() == 4 && "docx"@[0] == 'd' && "docx"@[1] == 'o' && "docx"@[2] == 'c' && "docx"@[3] == 'x'
            && "odt"@.len() == 3 && "odt"@[0] == 'o' && "odt"@[1] == 'd' && "odt"@[2] == 't'
            && "rtf"@.len() == 3 && "rtf"@[0] == 'r' && "rtf"@[1] == 't' && "rtf"@[2] == 'f'
            && "epub"@.len() == 4 && "epub"@[0] == 'e' && "epub"@[1] == 'p' && "epub"@[2] == 'u' && "epub"@[3] == 'b'
            && "djvu"@.len() == 4 && "djvu"@[0] == 'd' && "djvu"@[1] == 'j' && "djvu"@[2] == 'v' && "djvu"@[3] == 'u'
            && "pages"@.len() == 5 && "pages"@[0] == 'p' && "pages"@[1] == 'a' && "pages"@[2] == 'g' && "pages"@[3] == 'e' && "pages"@[4] == 's'
            && "md"@.len() == 2 && "md"@[0] == 'm' && "md"@[1] == 'd'
            && "markdown"@.len() == 8 && "markdown"@[0] == 'm' && "markdown"@[1] == 'a' && "markdown"@[2] == 'r' && "markdown"@[3] == 'k' && "markdown"@[4] == 'd' && "markdown"@[5] == 'o' && "markdown"@[6] == 'w' && "markdown"@[7] == 'n'
            && "rst"@.len() == 3 && "rst"@[0] == 'r' && "rst"@[1] == 's' && "rst"@[2] == 't'
            && "adoc"@.len() == 4 && "adoc"@[0] == 'a' && "adoc"@[1] == 'd' && "adoc"@[2] == 'o' && "adoc"@[3] == 'c'
            && "tex"@.len() == 3 && "tex"@[0] == 't' && "tex"@[1] == 'e' && "tex"@[2] == 'x'
            && "latex"@.len() == 5 && "latex"@[0] == 'l' && "latex"@[1] == 'a' && "latex"@[2] == 't' && "latex"@[3] == 'e' && "latex"@[4] == 'x'
            && "xls"@.len() == 3 && "xls"@[0] == 'x' && "xls"@[1] == 'l' && "xls"@[2] == 's'
            && "xlsx"@.len() == 4 && "xlsx"@[0] == 'x' && "xlsx"@[1] == 'l' && "xlsx"@[2] == 's' && "xlsx"@[3] == 'x'
            && "ods"@.len() == 3 && "ods"@[0] == 'o' && "ods"@[1] == 'd' && "ods"@[2] == 's'
            && "csv"@.len() == 3 && "csv"@[0] == 'c' && "csv"@[1] == 's' && "csv"@[2] == 'v'
            && "tsv"@.len() == 3 && "tsv"@[0] == 't' && "tsv"@[1] == 's' && "tsv"@[2] == 'v'
            && "numbers"@.len() == 7 && "numbers"@[0] == 'n' && "numbers"@[1] == 'u' && "numbers"@[2] == 'm' && "numbers"@[3] == 'b' && "numbers"@[4] == 'e' && "numbers"@[5] == 'r' && "numbers"@[6] == 's'
            && "ppt"@.len() == 3 && "ppt"@[0] == 'p' && "ppt"@[1] == 'p' && "ppt"@[2] == 't'
            && "pptx"@.len() == 4 && "pptx"@[0] == 'p' && "pptx"@[1] == 'p' && "pptx"@[2] == 't' && "pptx"@[3] == 'x'
            && "odp"@.len() == 3 && "odp"@[0] == 'o' && "odp"@[1] == 'd' && "odp"@[2] == 'p'
            && "key"@.len() == 3 && "key"@[0] == 'k' && "key"@[1] == 'e' && "key"@[2] == 'y'
            && "odg"@.len() == 3 && "odg"@[0] == 'o' && "odg"@[1] == 'd' && "odg"@[2] == 'g'
            && "vsd"@.len() == 3 && "vsd"@[0] == 'v' && "vsd"@[1] == 's' && "vsd"@[2] == 'd'
            && "vsdx"@.len() == 4 && "vsdx"@[0] == 'v' && "vsdx"@[1] == 's' && "vsdx"@[2] == 'd' && "vsdx"@[3] == 'x'
            && "dia"@.len() == 3 && "dia"@[0] == 'd' && "dia"@[1] == 'i' && "dia"@[2] == 'a'
            && "zip"@.len() == 3 && "zip"@[0] == 'z' && "zip"@[1] == 'i' && "zip"@[2] == 'p'
            && "tar"@.len() == 3 && "tar"@[0] == 't' && "tar"@[1] == 'a' && "tar"@[2] == 'r'
            && "gz"@.len() == 2 && "gz"@[0] == 'g' && "gz"@[1] == 'z'
            && "bz2"@.len() == 3 && "bz2"@[0] == 'b' && "bz2"@[1] == 'z' && "bz2"@[2] == '2'
            && "xz"@.len() == 2 && "xz"@[0] == 'x' && "xz"@[1] == 'z'
            && "zst"@.len() == 3 && "zst"@[0] == 'z' && "zst"@[1] == 's' && "zst"@[2] == 't'
            && "lz4"@.len() == 3 && "lz4"@[0] == 'l' && "lz4"@[1] == 'z' && "lz4"@[2] == '4'
            && "lzma"@.len() == 4 && "lzma"@[0] == 'l' && "lzma"@[1] == 'z' && "lzma"@[2] == 'm' && "lzma"@[3] == 'a'
            && "7z"@.len() == 2 && "7z"@[0] == '7' && "7z"@[1] == 'z'
            && "rar"@.len() == 3 && "rar"@[0] == 'r' && "rar"@[1] == 'a' && "rar"@[2] == 'r'
            && "deb"@.len() == 3 && "deb"@[0] == 'd' && "deb"@[1] == 'e' && "deb"@[2] == 'b'
            && "rpm"@.len() == 3 && "rpm"@[0] == 'r' && "rpm"@[1] == 'p' && "rpm"@[2] == 'm'
            && "flatpak"@.len() == 7 && "flatpak"@[0] == 'f' && "flatpak"@[1] == 'l' && "flatpak"@[2] == 'a' && "flatpak"@[3] == 't' && "flatpak"@[4] == 'p' && "flatpak"@[5] == 'a' && "flatpak"@[6] == 'k'
            && "snap"@.len() == 4 && "snap"@[0] == 's' && "snap"@[1] == 'n' && "snap"@[2] == 'a' && "snap"@[3] == 'p'
            && "cab"@.len() == 3 && "cab"@[0] == 'c' && "cab"@[1] == 'a' && "cab"@[2] == 'b'
            && "cpio"@.len() == 4 && "cpio"@[0] == 'c' && "cpio"@[1] == 'p' && "cpio"@[2] == 'i' && "cpio"@[3] == 'o'
            && "ar"@.len() == 2 && "ar"@[0] == 'a' && "ar"@[1] == 'r'
            && "tgz"@.len() == 3 && "tgz"@[0] == 't' && "tgz"@[1] == 'g' && "tgz"@[2] == 'z'
            && "tbz2"@.len() == 4 && "tbz2"@[0] == 't' && "tbz2"@[1] == 'b' && "tbz2"@[2] == 'z' && "tbz2"@[3] == '2'
            && "txz"@.len() == 3 && "txz"@[0] == 't' && "txz"@[1] == 'x' && "txz"@[2] == 'z'
            && "ttf"@.len() == 3 && "ttf"@[0] == 't' && "ttf"@[1] == 't' && "ttf"@[2] == 'f'
            && "otf"@.len() == 3 && "otf"@[0] == 'o' && "otf"@[1] == 't' && "otf"@[2] == 'f'
            && "woff"@.len() == 4 && "woff"@[0] == 'w' && "woff"@[1] == 'o' && "woff"@[2] == 'f' && "woff"@[3] == 'f'
            && "woff2"@.len() == 5 && "woff2"@[0] == 'w' && "woff2"@[1] == 'o' && "woff2"@[2] == 'f' && "woff2"@[3] == 'f' && "woff2"@[4] == '2'
            && "eot"@.len() == 3 && "eot"@[0] == 'e' && "eot"@[1] == 'o' && "eot"@[2] == 't'
            && "exe"@.len() == 3 && "exe"@[0] == 'e' && "exe"@[1] == 'x' && "exe"@[2] == 'e'
            && "msi"@.len() == 3 && "msi"@[0] == 'm' && "msi"@[1] == 's' && "msi"@[2] == 'i'
            && "bin"@.len() == 3 && "bin"@[0] == 'b' && "bin"@[1] == 'i' && "bin"@[2] == 'n'
            && "appimage"@.len() == 8 && "appimage"@[0] == 'a' && "appimage"@[1] == 'p' && "appimage"@[2] == 'p' && "appimage"@[3] == 'i' && "appimage"@[4] == 'm' && "appimage"@[5] == 'a' && "appimage"@[6] == 'g' && "appimage"@[7] == 'e'
            && "run"@.len() == 3 && "run"@[0] == 'r' && "run"@[1] == 'u' && "run"@[2] == 'n'
            && "dmg"@.len() == 3 && "dmg"@[0] == 'd' && "dmg"@[1] == 'm' && "dmg"@[2] == 'g'
            && "pkg"@.len() == 3 && "pkg"@[0] == 'p' && "pkg"@[1] == 'k' && "pkg"@[2] == 'g'
            && "so"@.len() == 2 && "so"@[0] == 's' && "so"@[1] == 'o'
            && "dll"@.len() == 3 && "dll"@[0] == 'd' && "dll"@[1] == 'l' && "dll"@[2] == 'l'
            && "dylib"@.len() == 5 && "dylib"@[0] == 'd' && "dylib"@[1] == 'y' && "dylib"@[2] == 'l' && "dylib"@[3] == 'i' && "dylib"@[4] == 'b'
            && "iso"@.len() == 3 && "iso"@[0] == 'i' && "iso"@[1] == 's' && "iso"@[2] == 'o'
            && "img"@.len() == 3 && "img"@[0] == 'i' && "img"@[1] == 'm' && "img"@[2] == 'g'
            && "pem"@.len() == 3 && "pem"@[0] == 'p' && "pem"@[1] == 'e' && "pem"@[2] == 'm'
            && "crt"@.len() == 3 && "crt"@[0] == 'c' && "crt"@[1] == 'r' && "crt"@[2] == 't'
            && "cer"@.len() == 3 && "cer"@[0] == 'c' && "cer"@[1] == 'e' && "cer"@[2] == 'r'
            && "p12"@.len() == 3 && "p12"@[0] == 'p' && "p12"@[1] == '1' && "p12"@[2] == '2'
            && "pfx"@.len() == 3 && "pfx"@[0] == 'p' && "pfx"@[1] == 'f' && "pfx"@[2] == 'x'
            && "xpi"@.len() == 3 && "xpi"@[0] == 'x' && "xpi"@[1] == 'p' && "xpi"@[2] == 'i'
            && "crx"@.len() == 3 && "crx"@[0] == 'c' && "crx"@[1] == 'r' && "crx"@[2] == 'x'
            && "fw"@.len() == 2 && "fw"@[0] == 'f' && "fw"@[1] == 'w'
            && "rom"@.len() == 3 && "rom"@[0] == 'r' && "rom"@[1] == 'o' && "rom"@[2] == 'm'
            && "bios"@.len() == 4 && "bios"@[0] == 'b' && "bios"@[1] == 'i' && "bios"@[2] == 'o' && "bios"@[3] == 's'
            && "rss"@.len() == 3 && "rss"@[0] == 'r' && "rss"@[1] == 's' && "rss"@[2] == 's'
            && "atom"@.len() == 4 && "atom"@[0] == 'a' && "atom"@[1] == 't' && "atom"@[2] == 'o' && "atom"@[3] == 'm'
            && "vcf"@.len() == 3 && "vcf"@[0] == 'v' && "vcf"@[1] == 'c' && "vcf"@[2] == 'f'
            && "vcard"@.len() == 5 && "vcard"@[0] == 'v' && "vcard"@[1] == 'c' && "vcard"@[2] == 'a' && "vcard"@[3] == 'r' && "vcard"@[4] == 'd'
            && "ics"@.len() == 3 && "ics"@[0] == 'i' && "ics"@[1] == 'c' && "ics"@[2] == 's'
            && "ical"@.len() == 4 && "ical"@[0] == 'i' && "ical"@[1] == 'c' && "ical"@[2] == 'a' && "ical"@[3] == 'l'
            && "cmd"@.len() == 3 && "cmd"@[0] == 'c' && "cmd"@[1] == 'm' && "cmd"@[2] == 'd'
            && "vbs"@.len() == 3 && "vbs"@[0] == 'v' && "vbs"@[1] == 'b' && "vbs"@[2] == 's'
            && "awk"@.len() == 3 && "awk"@[0] == 'a' && "awk"@[1] == 'w' && "awk"@[2] == 'k'
            && "sed"@.len() == 3 && "sed"@[0] == 's' && "sed"@[1] == 'e' && "sed"@[2] == 'd'
            && "m"@.len() == 1 && "m"@[0] == 'm'
            && "mm"@.len() == 2 && "mm"@[0] == 'm' && "mm"@[1] == 'm'
            && "v"@.len() == 1 && "v"@[0] == 'v'
            && "sv"@.len() == 2 && "sv"@[0] == 's' && "sv"@[1] == 'v'
            && "vhdl"@.len() == 4 && "vhdl"@[0] == 'v' && "vhdl"@[1] == 'h' && "vhdl"@[2] == 'd' && "vhdl"@[3] == 'l'
            && "zig"@.len() == 3 && "zig"@[0] == 'z' && "zig"@[1] == 'i' && "zig"@[2] == 'g'
            && "nim"@.len() == 3 && "nim"@[0] == 'n' && "nim"@[1] == 'i' && "nim"@[2] == 'm'
    );
}

/// Source, script, markup and configuration extensions of the table
/// (part 6) get the generic text icon.
proof fn lemma_icons_code_6()
    ensures
        icon_for_extension("cr"@) == "text-x-generic-symbolic"@,
        icon_for_extension("jl"@) == "text-x-generic-symbolic"@,
        icon_for_extension("tcl"@) == "text-x-generic-symbolic"@,
        icon_for_extension("lisp"@) == "text-x-generic-symbolic"@,
        icon_for_extension("el"@) == "text-x-generic-symbolic"@,
        icon_for_extension("vim"@) == "text-x-generic-symbolic"@,
        icon_for_extension("html"@) == "text-x-generic-symbolic"@,
        icon_for_extension("htm"@) == "text-x-generic-symbolic"@,
        icon_for_extension("xhtml"@) == "text-x-generic-symbolic"@,
        icon_for_extension("vue"@) == "text-x-generic-symbolic"@,
        icon_for_extension("svelte"@) == "text-x-generic-symbolic"@,
{
    reveal_strlit("jpg");
    reveal_strlit("jpeg");
    reveal_strlit("png");
    reveal_strlit("gif");
    reveal_strlit("svg");
    reveal_strlit("webp");
    reveal_strlit("bmp");
    reveal_strlit("ico");
    reveal_strlit("tiff");
    reveal_strlit("tif");
    reveal_strlit("heic");
    reveal_strlit("heif");
    reveal_strlit("avif");
    reveal_strlit("raw");
    reveal_strlit("cr2");
    reveal_strlit("nef");
    reveal_strlit("psd");
    reveal_strlit("xcf");
    reveal_strlit("mp3");
    reveal_strlit("flac");
    reveal_strlit("ogg");
    reveal_strlit("oga");
    reveal_strlit("wav");
    reveal_strlit("aac");
    reveal_strlit("wma");
    reveal_strlit("m4a");
    reveal_strlit("opus");
    reveal_strlit("aiff");
    reveal_strlit("mid");
    reveal_strlit("midi");
    reveal_strlit("ac3");
    reveal_strlit("mp4");
    reveal_strlit("mkv");
    reveal_strlit("avi");
    reveal_strlit("webm");
    reveal_strlit("mov");
    reveal_strlit("wmv");
    reveal_strlit("flv");
    reveal_strlit("m4v");
    reveal_strlit("mpg");
    reveal_strlit("mpeg");
    reveal_strlit("3gp");
    reveal_strlit("ogv");
    reveal_strlit("pdf");
    reveal_strlit("doc");
    reveal_strlit("docx");
    reveal_strlit("odt");
    reveal_strlit("rtf");
    reveal_strlit("epub");
    reveal_strlit("djvu");
    reveal_strlit("pages");
    reveal_strlit("md");
    reveal_strlit("markdown");
    reveal_strlit("rst");
    reveal_strlit("adoc");
    reveal_strlit("tex");
    reveal_strlit("latex");
    reveal_strlit("xls");
    reveal_strlit("xlsx");
    reveal_strlit("ods");
    reveal_strlit("csv");
    reveal_strlit("tsv");
    reveal_strlit("numbers");
    reveal_strlit("ppt");
    reveal_strlit("pptx");
    reveal_strlit("odp");
    reveal_strlit("key");
    reveal_strlit("odg");
    reveal_strlit("vsd");
    reveal_strlit("vsdx");
    reveal_strlit("dia");
    reveal_strlit("zip");
    reveal_strlit("tar");
    reveal_strlit("gz");
    reveal_strlit("bz2");
    reveal_strlit("xz");
    reveal_strlit("zst");
    reveal_strlit("lz4");
    reveal_strlit("lzma");
    reveal_strlit("7z");
    reveal_strlit("rar");
    reveal_strlit("deb");
    reveal_strlit("rpm");
    reveal_strlit("flatpak");
    reveal_strlit("snap");
    reveal_strlit("cab");
    reveal_strlit("cpio");
    reveal_strlit("ar");
    reveal_strlit("tgz");
    reveal_strlit("tbz2");
    reveal_strlit("txz");
    reveal_strlit("ttf");
    reveal_strlit("otf");
    reveal_strlit("woff");
    reveal_strlit("woff2");
    reveal_strlit("eot");
    reveal_strlit("exe");
    reveal_strlit("msi");
    reveal_strlit("bin");
    reveal_strlit("appimage");
    reveal_strlit("run");
    reveal_strlit("dmg");
    reveal_strlit("pkg");
    reveal_strlit("so");
    reveal_strlit("dll");
    reveal_strlit("dylib");
    reveal_strlit("iso");
    reveal_strlit("img");
    reveal_strlit("pem");
    reveal_strlit("crt");
    reveal_strlit("cer");
    reveal_strlit("p12");
    reveal_strlit("pfx");
    reveal_strlit("xpi");
    reveal_strlit("crx");
    reveal_strlit("fw");
    reveal_strlit("rom");
    reveal_strlit("bios");
    reveal_strlit("rss");
    reveal_strlit("atom");
    reveal_strlit("vcf");
    reveal_strlit("vcard");
    reveal_strlit("ics");
    reveal_strlit("ical");
    reveal_strlit("cr");
    reveal_strlit("jl");
    reveal_strlit("tcl");
    reveal_strlit("lisp");
    reveal_strlit("el");
    reveal_strlit("vim");
    reveal_strlit("html");
    reveal_strlit("htm");
    reveal_strlit("xhtml");
    reveal_strlit("vue");
    reveal_strlit("svelte");
    assert(
        "jpg"@.len() == 3 && "jpg"@[0] == 'j' && "jpg"@[1] == 'p' && "jpg"@[2] == 'g'
            && "jpeg"@.len() == 4 && "jpeg"@[0] == 'j' && "jpeg"@[1] == 'p' && "jpeg"@[2] == 'e' && "jpeg"@[3] == 'g'
            && "png"@.len() == 3 && "png"@[0] == 'p' && "png"@[1] == 'n' && "png"@[2] == 'g'
            && "gif"@.len() == 3 && "gif"@[0] == 'g' && "gif"@[1] == 'i' && "gif"@[2] == 'f'
            && "svg"@.len() == 3 && "svg"@[0] == 's' && "svg"@[1] == 'v' && "svg"@[2] == 'g'
            && "webp"@.len() == 4 && "webp"@[0] == 'w' && "webp"@[1] == 'e' && "webp"@[2] == 'b' && "webp"@[3] == 'p'
            && "bmp"@.len() == 3 && "bmp"@[0] == 'b' && "bmp"@[1] == 'm' && "bmp"@[2] == 'p'
            && "ico"@.len() == 3 && "ico"@[0] == 'i' && "ico"@[1] == 'c' && "ico"@[2] == 'o'
            && "tiff"@.len() == 4 && "tiff"@[0] == 't' && "tiff"@[1] == 'i' && "tiff"@[2] == 'f' && "tiff"@[3] == 'f'
            && "tif"@.len() == 3 && "tif"@[0] == 't' && "tif"@[1] == 'i' && "tif"@[2] == 'f'
            && "heic"@.len() == 4 && "heic"@[0] == 'h' && "heic"@[1] == 'e' && "heic"@[2] == 'i' && "heic"@[3] == 'c'
            && "heif"@.len() == 4 && "heif"@[0] == 'h' && "heif"@[1] == 'e' && "heif"@[2] == 'i' && "heif"@[3] == 'f'
            && "avif"@.len() == 4 && "avif"@[0] == 'a' && "avif"@[1] == 'v' && "avif"@[2] == 'i' && "avif"@[3] == 'f'
            && "raw"@.len() == 3 && "raw"@[0] == 'r' && "raw"@[1] == 'a' && "raw"@[2] == 'w'
            && "cr2"@.len() == 3 && "cr2"@[0] == 'c' && "cr2"@[1] == 'r' && "cr2"@[2] == '2'
            && "nef"@.len() == 3 && "nef"@[0] == 'n' && "nef"@[1] == 'e' && "nef"@[2] == 'f'
            && "psd"@.len() == 3 && "psd"@[0] == 'p' && "psd"@[1] == 's' && "psd"@[2] == 'd'
            && "xcf"@.len() == 3 && "xcf"@[0] == 'x' && "xcf"@[1] == 'c' && "xcf"@[2] == 'f'
            && "mp3"@.len() == 3 && "mp3"@[0] == 'm' && "mp3"@[1] == 'p' && "mp3"@[2] == '3'
            && "flac"@.len() == 4 && "flac"@[0] == 'f' && "flac"@[1] == 'l' && "flac"@[2] == 'a' && "flac"@[3] == 'c'
            && "ogg"@.len() == 3 && "ogg"@[0] == 'o' && "ogg"@[1] == 'g' && "ogg"@[2] == 'g'
            && "oga"@.len() == 3 && "oga"@[0] == 'o' && "oga"@[1] == 'g' && "oga"@[2] == 'a'
            && "wav"@.len() == 3 && "wav"@[0] == 'w' && "wav"@[1] == 'a' && "wav"@[2] == 'v'
            && "aac"@.len() == 3 && "aac"@[0] == 'a' && "aac"@[1] == 'a' && "aac"@[2] == 'c'
            && "wma"@.len() == 3 && "wma"@[0] == 'w' && "wma"@[1] == 'm' && "wma"@[2] == 'a'
            && "m4a"@.len() == 3 && "m4a"@[0] == 'm' && "m4a"@[1] == '4' && "m4a"@[2] == 'a'
            && "opus"@.len() == 4 && "opus"@[0] == 'o' && "opus"@[1] == 'p' && "opus"@[2] == 'u' && "opus"@[3] == 's'
            && "aiff"@.len() == 4 && "aiff"@[0] == 'a' && "aiff"@[1] == 'i' && "aiff"@[2] == 'f' && "aiff"@[3] == 'f'
            && "mid"@.len() == 3 && "mid"@[0] == 'm' && "mid"@[1] == 'i' && "mid"@[2] == 'd'
            && "midi"@.len() == 4 && "midi"@[0] == 'm' && "midi"@[1] == 'i' && "midi"@[2] == 'd' && "midi"@[3] == 'i'
            && "ac3"@.len() == 3 && "ac3"@[0] == 'a' && "ac3"@[1] == 'c' && "ac3"@[2] == '3'
            && "mp4"@.len() == 3 && "mp4"@[0] == 'm' && "mp4"@[1] == 'p' && "mp4"@[2] == '4'
            && "mkv"@.len() == 3 && "mkv"@[0] == 'm' && "mkv"@[1] == 'k' && "mkv"@[2] == 'v'
            && "avi"@.len() == 3 && "avi"@[0] == 'a' && "avi"@[1] == 'v' && "avi"@[2] == 'i'
            && "webm"@.len() == 4 && "webm"@[0] == 'w' && "webm"@[1] == 'e' && "webm"@[2] == 'b' && "webm"@[3] == 'm'
            && "mov"@.len() == 3 && "mov"@[0] == 'm' && "mov"@[1] == 'o' && "mov"@[2] == 'v'
            && "wmv"@.len() == 3 && "wmv"@[0] == 'w' && "wmv"@[1] == 'm' && "wmv"@[2] == 'v'
            && "flv"@.len() == 3 && "flv"@[0] == 'f' && "flv"@[1] == 'l' && "flv"@[2] == 'v'
            && "m4v"@.len() == 3 && "m4v"@[0] == 'm' && "m4v"@[1] == '4' && "m4v"@[2] == 'v'
            && "mpg"@.len() == 3 && "mpg"@[0] == 'm' && "mpg"@[1] == 'p' && "mpg"@[2] == 'g'
            && "mpeg"@.len() == 4 && "mpeg"@[0] == 'm' && "mpeg"@[1] == 'p' && "mpeg"@[2] == 'e' && "mpeg"@[3] == 'g'
            && "3gp"@.len() == 3 && "3gp"@[0] == '3' && "3gp"@[1] == 'g' && "3gp"@[2] == 'p'
            && "ogv"@.len() == 3 && "ogv"@[0] == 'o' && "ogv"@[1] == 'g' && "ogv"@[2] == 'v'
            && "pdf"@.len() == 3 && "pdf"@[0] == 'p' && "pdf"@[1] == 'd' && "pdf"@[2] == 'f'
            && "doc"@.len() == 3 && "doc"@[0] == 'd' && "doc"@[1] == 'o' && "doc"@[2] == 'c'
            && "docx"@.len() == 4 && "docx"@[0] == 'd' && "docx"@[1] == 'o' && "docx"@[2] == 'c' && "docx"@[3] == 'x'
            && "odt"@.len() == 3 && "odt"@[0] == 'o' && "odt"@[1] == 'd' && "odt"@[2] == 't'
            && "rtf"@.len() == 3 && "rtf"@[0] == 'r' && "rtf"@[1] == 't' && "rtf"@[2] == 'f'
            && "epub"@.len() == 4 && "epub"@[0] == 'e' && "epub"@[1] == 'p' && "epub"@[2] == 'u' && "epub"@[3] == 'b'
            && "djvu"@.len() == 4 && "djvu"@[0] == 'd' && "djvu"@[1] == 'j' && "djvu"@[2] == 'v' && "djvu"@[3] == 'u'
            && "pages"@.len() == 5 && "pages"@[0] == 'p' && "pages"@[1] == 'a' && "pages"@[2] == 'g' && "pages"@[3] == 'e' && "pages"@[4] == 's'
            && "md"@.len() == 2 && "md"@[0] == 'm' && "md"@[1] == 'd'
            && "markdown"@.len() == 8 && "markdown"@[0] == 'm' && "markdown"@[1] == 'a' && "markdown"@[2] == 'r' && "markdown"@[3] == 'k' && "markdown"@[4] == 'd' && "markdown"@[5] == 'o' && "markdown"@[6] == 'w' && "markdown"@[7] == 'n'
            && "rst"@.len() == 3 && "rst"@[0] == 'r' && "rst"@[1] == 's' && "rst"@[2] == 't'
            && "adoc"@.len() == 4 && "adoc"@[0] == 'a' && "adoc"@[1] == 'd' && "adoc"@[2] == 'o' && "adoc"@[3] == 'c'
            && "tex"@.len() == 3 && "tex"@[0] == 't' && "tex"@[1] == 'e' && "tex"@[2] == 'x'
            && "latex"@.len() == 5 && "latex"@[0] == 'l' && "latex"@[1] == 'a' && "latex"@[2] == 't' && "latex"@[3] == 'e' && "latex"@[4] == 'x'
            && "xls"@.len() == 3 && "xls"@[0] == 'x' && "xls"@[1] == 'l' && "xls"@[2] == 's'
            && "xlsx"@.len() == 4 && "xlsx"@[0] == 'x' && "xlsx"@[1] == 'l' && "xlsx"@[2] == 's' && "xlsx"@[3] == 'x'
            && "ods"@.len() == 3 && "ods"@[0] == 'o' && "ods"@[1] == 'd' && "ods"@[2] == 's'
            && "csv"@.len() == 3 && "csv"@[0] == 'c' && "csv"@[1] == 's' && "csv"@[2] == 'v'
            && "tsv"@.len() == 3 && "tsv"@[0] == 't' && "tsv"@[1] == 's' && "tsv"@[2] == 'v'
            && "numbers"@.len() == 7 && "numbers"@[0] == 'n' && "numbers"@[1] == 'u' && "numbers"@[2] == 'm' && "numbers"@[3] == 'b' && "numbers"@[4] == 'e' && "numbers"@[5] == 'r' && "numbers"@[6] == 's'
            && "ppt"@.len() == 3 && "ppt"@[0] == 'p' && "ppt"@[1] == 'p' && "ppt"@[2] == 't'
            && "pptx"@.len() == 4 && "pptx"@[0] == 'p' && "pptx"@[1] == 'p' && "pptx"@[2] == 't' && "pptx"@[3] == 'x'
            && "odp"@.len() == 3 && "odp"@[0] == 'o' && "odp"@[1] == 'd' && "odp"@[2] == 'p'
            && "key"@.len() == 3 && "key"@[0] == 'k' && "key"@[1] == 'e' && "key"@[2] == 'y'
            && "odg"@.len() == 3 && "odg"@[0] == 'o' && "odg"@[1] == 'd' && "odg"@[2] == 'g'
            && "vsd"@.len() == 3 && "vsd"@[0] == 'v' && "vsd"@[1] == 's' && "vsd"@[2] == 'd'
            && "vsdx"@.len() == 4 && "vsdx"@[0] == 'v' && "vsdx"@[1] == 's' && "vsdx"@[2] == 'd' && "vsdx"@[3] == 'x'
            && "dia"@.len() == 3 && "dia"@[0] == 'd' && "dia"@[1] == 'i' && "dia"@[2] == 'a'
            && "zip"@.len() == 3 && "zip"@[0] == 'z' && "zip"@[1] == 'i' && "zip"@[2] == 'p'
            && "tar"@.len() == 3 && "tar"@[0] == 't' && "tar"@[1] == 'a' && "tar"@[2] == 'r'
            && "gz"@.len() == 2 && "gz"@[0] == 'g' && "gz"@[1] == 'z'
            && "bz2"@.len() == 3 && "bz2"@[0] == 'b' && "bz2"@[1] == 'z' && "bz2"@[2] == '2'
            && "xz"@.len() == 2 && "xz"@[0] == 'x' && "xz"@[1] == 'z'
            && "zst"@.len() == 3 && "zst"@[0] == 'z' && "zst"@[1] == 's' && "zst"@[2] == 't'
            && "lz4"@.len() == 3 && "lz4"@[0] == 'l' && "lz4"@[1] == 'z' && "lz4"@[2] == '4'
            && "lzma"@.len() == 4 && "lzma"@[0] == 'l' && "lzma"@[1] == 'z' && "lzma"@[2] == 'm' && "lzma"@[3] == 'a'
            && "7z"@.len() == 2 && "7z"@[0] == '7' && "7z"@[1] == 'z'
            && "rar"@.len() == 3 && "rar"@[0] == 'r' && "rar"@[1] == 'a' && "rar"@[2] == 'r'
            && "deb"@.len() == 3 && "deb"@[0] == 'd' && "deb"@[1] == 'e' && "deb"@[2] == 'b'
            && "rpm"@.len() == 3 && "rpm"@[0] == 'r' && "rpm"@[1] == 'p' && "rpm"@[2] == 'm'
            && "flatpak"@.len() == 7 && "flatpak"@[0] == 'f' && "flatpak"@[1] == 'l' && "flatpak"@[2] == 'a' && "flatpak"@[3] == 't' && "flatpak"@[4] == 'p' && "flatpak"@[5] == 'a' && "flatpak"@[6] == 'k'
            && "snap"@.len() == 4 && "snap"@[0] == 's' && "snap"@[1] == 'n' && "snap"@[2] == 'a' && "snap"@[3] == 'p'
            && "cab"@.len() == 3 && "cab"@[0] == 'c' && "cab"@[1] == 'a' && "cab"@[2] == 'b'
            && "cpio"@.len() == 4 && "cpio"@[0] == 'c' && "cpio"@[1] == 'p' && "cpio"@[2] == 'i' && "cpio"@[3] == 'o'
            && "ar"@.len() == 2 && "ar"@[0] == 'a' && "ar"@[1] == 'r'
            && "tgz"@.len() == 3 && "tgz"@[0] == 't' && "tgz"@[1] == 'g' && "tgz"@[2] == 'z'
            && "tbz2"@.len() == 4 && "tbz2"@[0] == 't' && "tbz2"@[1] == 'b' && "tbz2"@[2] == 'z' && "tbz2"@[3] == '2'
            && "txz"@.len() == 3 && "txz"@[0] == 't' && "txz"@[1] == 'x' && "txz"@[2] == 'z'
            && "ttf"@.len() == 3 && "ttf"@[0] == 't' && "ttf"@[1] == 't' && "ttf"@[2] == 'f'
            && "otf"@.len() == 3 && "otf"@[0] == 'o' && "otf"@[1] == 't' && "otf"@[2] == 'f'
            && "woff"@.len() == 4 && "woff"@[0] == 'w' && "woff"@[1] == 'o' && "woff"@[2] == 'f' && "woff"@[3] == 'f'
            && "woff2"@.len() == 5 && "woff2"@[0] == 'w' && "woff2"@[1] == 'o' && "woff2"@[2] == 'f' && "woff2"@[3] == 'f' && "woff2"@[4] == '2'
            && "eot"@.len() == 3 && "eot"@[0] == 'e' && "eot"@[1] == 'o' && "eot"@[2] == 't'
            && "exe"@.len() == 3 && "exe"@[0] == 'e' && "exe"@[1] == 'x' && "exe"@[2] == 'e'
            && "msi"@.len() == 3 && "msi"@[0] == 'm' && "msi"@[1] == 's' && "msi"@[2] == 'i'
            && "bin"@.len() == 3 && "bin"@[0] == 'b' && "bin"@[1] == 'i' && "bin"@[2] == 'n'
            && "appimage"@.len() == 8 && "appimage"@[0] == 'a' && "appimage"@[1] == 'p' && "appimage"@[2] == 'p' && "appimage"@[3] == 'i' && "appimage"@[4] == 'm' && "appimage"@[5] == 'a' && "appimage"@[6] == 'g' && "appimage"@[7] == 'e'
            && "run"@.len() == 3 && "run"@[0] == 'r' && "run"@[1] == 'u' && "run"@[2] == 'n'
            && "dmg"@.len() == 3 && "dmg"@[0] == 'd' && "dmg"@[1] == 'm' && "dmg"@[2] == 'g'
            && "pkg"@.len() == 3 && "pkg"@[0] == 'p' && "pkg"@[1] == 'k' && "pkg"@[2] == 'g'
            && "so"@.len() == 2 && "so"@[0] == 's' && "so"@[1] == 'o'
            && "dll"@.len() == 3 && "dll"@[0] == 'd' && "dll"@[1] == 'l' && "dll"@[2] == 'l'
            && "dylib"@.len() == 5 && "dylib"@[0] == 'd' && "dylib"@[1] == 'y' && "dylib"@[2] == 'l' && "dylib"@[3] == 'i' && "dylib"@[4] == 'b'
            && "iso"@.len() == 3 && "iso"@[0] == 'i' && "iso"@[1] == 's' && "iso"@[2] == 'o'
            && "img"@.len() == 3 && "img"@[0] == 'i' && "img"@[1] == 'm' && "img"@[2] == 'g'
            && "pem"@.len() == 3 && "pem"@[0] == 'p' && "pem"@[1] == 'e' && "pem"@[2] == 'm'
            && "crt"@.len() == 3 && "crt"@[0] == 'c' && "crt"@[1] == 'r' && "crt"@[2] == 't'
            && "cer"@.len() == 3 && "cer"@[0] == 'c' && "cer"@[1] == 'e' && "cer"@[2] == 'r'
            && "p12"@.len() == 3 && "p12"@[0] == 'p' && "p12"@[1] == '1' && "p12"@[2] == '2'
            && "pfx"@.len() == 3 && "pfx"@[0] == 'p' && "pfx"@[1] == 'f' && "pfx"@[2] == 'x'
            && "xpi"@.len() == 3 && "xpi"@[0] == 'x' && "xpi"@[1] == 'p' && "xpi"@[2] == 'i'
            && "crx"@.len() == 3 && "crx"@[0] == 'c' && "crx"@[1] == 'r' && "crx"@[2] == 'x'
            && "fw"@.len() == 2 && "fw"@[0] == 'f' && "fw"@[1] == 'w'
            && "rom"@.len() == 3 && "rom"@[0] == 'r' && "rom"@[1] == 'o' && "rom"@[2] == 'm'
            && "bios"@.len() == 4 && "bios"@[0] == 'b' && "bios"@[1] == 'i' && "bios"@[2] == 'o' && "bios"@[3] == 's'
            && "rss"@.len() == 3 && "rss"@[0] == 'r' && "rss"@[1] == 's' && "rss"@[2] == 's'
            && "atom"@.len() == 4 && "atom"@[0] == 'a' && "atom"@[1] == 't' && "atom"@[2] == 'o' && "atom"@[3] == 'm'
            && "vcf"@.len() == 3 && "vcf"@[0] == 'v' && "vcf"@[1] == 'c' && "vcf"@[2] == 'f'
            && "vcard"@.len() == 5 && "vcard"@[0] == 'v' && "vcard"@[1] == 'c' && "vcard"@[2] == 'a' && "vcard"@[3] == 'r' && "vcard"@[4] == 'd'
            && "ics"@.len() == 3 && "ics"@[0] == 'i' && "ics"@[1] == 'c' && "ics"@[2] == 's'
            && "ical"@.len() == 4 && "ical"@[0] == 'i' && "ical"@[1] == 'c' && "ical"@[2] == 'a' && "ical"@[3] == 'l'
            && "cr"@.len() == 2 && "cr"@[0] == 'c' && "cr"@[1] == 'r'
            && "jl"@.len() == 2 && "jl"@[0] == 'j' && "jl"@[1] == 'l'
            && "tcl"@.len() == 3 && "tcl"@[0] == 't' && "tcl"@[1] == 'c' && "tcl"@[2] == 'l'
            && "lisp"@.len() == 4 && "lisp"@[0] == 'l' && "lisp"@[1] == 'i' && "lisp"@[2] == 's' && "lisp"@[3] == 'p'
            && "el"@.len() == 2 && "el"@[0] == 'e' && "el"@[1] == 'l'
            && "vim"@.len() == 3 && "vim"@[0] == 'v' && "vim"@[1] == 'i' && "vim"@[2] == 'm'
            && "html"@.len() == 4 && "html"@[0] == 'h' && "html"@[1] == 't' && "html"@[2] == 'm' && "html"@[3] == 'l'
            && "htm"@.len() == 3 && "htm"@[0] == 'h' && "htm"@[1] == 't' && "htm"@[2] == 'm'
            && "xhtml"@.len() == 5 && "xhtml"@[0] == 'x' && "xhtml"@[1] == 'h' && "xhtml"@[2] == 't' && "xhtml"@[3] == 'm' && "xhtml"@[4] == 'l'
            && "vue"@.len() == 3 && "vue"@[0] == 'v' && "vue"@[1] == 'u' && "vue"@[2] == 'e'
            && "svelte"@.len() == 6 && "svelte"@[0] == 's' && "svelte"@[1] == 'v' && "svelte"@[2] == 'e' && "svelte"@[3] == 'l' && "svelte"@[4] == 't' && "svelte"@[5] == 'e'
    );
}

/// Source, script, markup and configuration extensions of the table
/// (part 7) get the generic text icon.
proof fn lemma_icons_code_7()
    ensures
        icon_for_extension("css"@) == "text-x-generic-symbolic"@,
        icon_for_extension("scss"@) == "text-x-generic-symbolic"@,
        icon_for_extension("sass"@) == "text-x-generic-symbolic"@,
        icon_for_extension("less"@) == "text-x-generic-symbolic"@,
        icon_for_extension("styl"@) == "text-x-generic-symbolic"@,
        icon_for_extension("json"@) == "text-x-generic-symbolic"@,
        icon_for_extension("yaml"@) == "text-x-generic-symbolic"@,
        icon_for_extension("yml"@) == "text-x-generic-symbolic"@,
        icon_for_extension("xml"@) == "text-x-generic-symbolic"@,
        icon_for_extension("toml"@) == "text-x-generic-symbolic"@,
        icon_for_extension("ini"@) == "text-x-generic-symbolic"@,
{
    reveal_strlit("jpg");
    reveal_strlit("jpeg");
    reveal_strlit("png");
    reveal_strlit("gif");
    reveal_strlit("svg");
    reveal_strlit("webp");
    reveal_strlit("bmp");
    reveal_strlit("ico");
    reveal_strlit("tiff");
    reveal_strlit("tif");
    reveal_strlit("heic");
    reveal_strlit("heif");
    reveal_strlit("avif");
    reveal_strlit("raw");
    reveal_strlit("cr2");
    reveal_strlit("nef");
    reveal_strlit("psd");
    reveal_strlit("xcf");
    reveal_strlit("mp3");
    reveal_strlit("flac");
    reveal_strlit("ogg");
    reveal_strlit("oga");
    reveal_strlit("wav");
    reveal_strlit("aac");
    reveal_strlit("wma");
    reveal_strlit("m4a");
    reveal_strlit("opus");
    reveal_strlit("aiff");
    reveal_strlit("mid");
    reveal_strlit("midi");
    reveal_strlit("ac3");
    reveal_strlit("mp4");
    reveal_strlit("mkv");
    reveal_strlit("avi");
    reveal_strlit("webm");
    reveal_strlit("mov");
    reveal_strlit("wmv");
    reveal_strlit("flv");
    reveal_strlit("m4v");
    reveal_strlit("mpg");
    reveal_strlit("mpeg");
    reveal_strlit("3gp");
    reveal_strlit("ogv");
    reveal_strlit("pdf");
    reveal_strlit("doc");
    reveal_strlit("docx");
    reveal_strlit("odt");
    reveal_strlit("rtf");
    reveal_strlit("epub");
    reveal_strlit("djvu");
    reveal_strlit("pages");
    reveal_strlit("md");
    reveal_strlit("markdown");
    reveal_strlit("rst");
    reveal_strlit("adoc");
    reveal_strlit("tex");
    reveal_strlit("latex");
    reveal_strlit("xls");
    reveal_strlit("xlsx");
    reveal_strlit("ods");
    reveal_strlit("csv");
    reveal_strlit("tsv");
    reveal_strlit("numbers");
    reveal_strlit("ppt");
    reveal_strlit("pptx");
    reveal_strlit("odp");
    reveal_strlit("key");
    reveal_strlit("odg");
    reveal_strlit("vsd");
    reveal_strlit("vsdx");
    reveal_strlit("dia");
    reveal_strlit("zip");
    reveal_strlit("tar");
    reveal_strlit("gz");
    reveal_strlit("bz2");
    reveal_strlit("xz");
    reveal_strlit("zst");
    reveal_strlit("lz4");
    reveal_strlit("lzma");
    reveal_strlit("7z");
    reveal_strlit("rar");
    reveal_strlit("deb");
    reveal_strlit("rpm");
    reveal_strlit("flatpak");
    reveal_strlit("snap");
    reveal_strlit("cab");
    reveal_strlit("cpio");
    reveal_strlit("ar");
    reveal_strlit("tgz");
    reveal_strlit("tbz2");
    reveal_strlit("txz");
    reveal_strlit("ttf");
    reveal_strlit("otf");
    reveal_strlit("woff");
    reveal_strlit("woff2");
    reveal_strlit("eot");
    reveal_strlit("exe");
    reveal_strlit("msi");
    reveal_strlit("bin");
    reveal_strlit("appimage");
    reveal_strlit("run");
    reveal_strlit("dmg");
    reveal_strlit("pkg");
    reveal_strlit("so");
    reveal_strlit("dll");
    reveal_strlit("dylib");
    reveal_strlit("iso");
    reveal_strlit("img");
    reveal_strlit("pem");
    reveal_strlit("crt");
    reveal_strlit("cer");
    reveal_strlit("p12");
    reveal_strlit("pfx");
    reveal_strlit("xpi");
    reveal_strlit("crx");
    reveal_strlit("fw");
    reveal_strlit("rom");
    reveal_strlit("bios");
    reveal_strlit("rss");
    reveal_strlit("atom");
    reveal_strlit("vcf");
    reveal_strlit("vcard");
    reveal_strlit("ics");
    reveal_strlit("ical");
    reveal_strlit("css");
    reveal_strlit("scss");
    reveal_strlit("sass");
    reveal_strlit("less");
    reveal_strlit("styl");
    reveal_strlit("json");
    reveal_strlit("yaml");
    reveal_strlit("yml");
    reveal_strlit("xml");
    reveal_strlit("toml");
    reveal_strlit("ini");
    assert(
        "jpg"@.len() == 3 && "jpg"@[0] == 'j' && "jpg"@[1] == 'p' && "jpg"@[2] == 'g'
            && "jpeg"@.len() == 4 && "jpeg"@[0] == 'j' && "jpeg"@[1] == 'p' && "jpeg"@[2] == 'e' && "jpeg"@[3] == 'g'
            && "png"@.len() == 3 && "png"@[0] == 'p' && "png"@[1] == 'n' && "png"@[2] == 'g'
            && "gif"@.len() == 3 && "gif"@[0] == 'g' && "gif"@[1] == 'i' && "gif"@[2] == 'f'
            && "svg"@.len() == 3 && "svg"@[0] == 's' && "svg"@[1] == 'v' && "svg"@[2] == 'g'
            && "webp"@.len() == 4 && "webp"@[0] == 'w' && "webp"@[1] == 'e' && "webp"@[2] == 'b' && "webp"@[3] == 'p'
            && "bmp"@.len() == 3 && "bmp"@[0] == 'b' && "bmp"@[1] == 'm' && "bmp"@[2] == 'p'
            && "ico"@.len() == 3 && "ico"@[0] == 'i' && "ico"@[1] == 'c' && "ico"@[2] == 'o'
            && "tiff"@.len() == 4 && "tiff"@[0] == 't' && "tiff"@[1] == 'i' && "tiff"@[2] == 'f' && "tiff"@[3] == 'f'
            && "tif"@.len() == 3 && "tif"@[0] == 't' && "tif"@[1] == 'i' && "tif"@[2] == 'f'
            && "heic"@.len() == 4 && "heic"@[0] == 'h' && "heic"@[1] == 'e' && "heic"@[2] == 'i' && "heic"@[3] == 'c'
            && "heif"@.len() == 4 && "heif"@[0] == 'h' && "heif"@[1] == 'e' && "heif"@[2] == 'i' && "heif"@[3] == 'f'
            && "avif"@.len() == 4 && "avif"@[0] == 'a' && "avif"@[1] == 'v' && "avif"@[2] == 'i' && "avif"@[3] == 'f'
            && "raw"@.len() == 3 && "raw"@[0] == 'r' && "raw"@[1] == 'a' && "raw"@[2] == 'w'
            && "cr2"@.len() == 3 && "cr2"@[0] == 'c' && "cr2"@[1] == 'r' && "cr2"@[2] == '2'
            && "nef"@.len() == 3 && "nef"@[0] == 'n' && "nef"@[1] == 'e' && "nef"@[2] == 'f'
            && "psd"@.len() == 3 && "psd"@[0] == 'p' && "psd"@[1] == 's' && "psd"@[2] == 'd'
            && "xcf"@.len() == 3 && "xcf"@[0] == 'x' && "xcf"@[1] == 'c' && "xcf"@[2] == 'f'
            && "mp3"@.len() == 3 && "mp3"@[0] == 'm' && "mp3"@[1] == 'p' && "mp3"@[2] == '3'
            && "flac"@.len() == 4 && "flac"@[0] == 'f' && "flac"@[1] == 'l' && "flac"@[2] == 'a' && "flac"@[3] == 'c'
            && "ogg"@.len() == 3 && "ogg"@[0] == 'o' && "ogg"@[1] == 'g' && "ogg"@[2] == 'g'
            && "oga"@.len() == 3 && "oga"@[0] == 'o' && "oga"@[1] == 'g' && "oga"@[2] == 'a'
            && "wav"@.len() == 3 && "wav"@[0] == 'w' && "wav"@[1] == 'a' && "wav"@[2] == 'v'
            && "aac"@.len() == 3 && "aac"@[0] == 'a' && "aac"@[1] == 'a' && "aac"@[2] == 'c'
            && "wma"@.len() == 3 && "wma"@[0] == 'w' && "wma"@[1] == 'm' && "wma"@[2] == 'a'
            && "m4a"@.len() == 3 && "m4a"@[0] == 'm' && "m4a"@[1] == '4' && "m4a"@[2] == 'a'
            && "opus"@.len() == 4 && "opus"@[0] == 'o' && "opus"@[1] == 'p' && "opus"@[2] == 'u' && "opus"@[3] == 's'
            && "aiff"@.len() == 4 && "aiff"@[0] == 'a' && "aiff"@[1] == 'i' && "aiff"@[2] == 'f' && "aiff"@[3] == 'f'
            && "mid"@.len() == 3 && "mid"@[0] == 'm' && "mid"@[1] == 'i' && "mid"@[2] == 'd'
            && "midi"@.len() == 4 && "midi"@[0] == 'm' && "midi"@[1] == 'i' && "midi"@[2] == 'd' && "midi"@[3] == 'i'
            && "ac3"@.len() == 3 && "ac3"@[0] == 'a' && "ac3"@[1] == 'c' && "ac3"@[2] == '3'
            && "mp4"@.len() == 3 && "mp4"@[0] == 'm' && "mp4"@[1] == 'p' && "mp4"@[2] == '4'
            && "mkv"@.len() == 3 && "mkv"@[0] == 'm' && "mkv"@[1] == 'k' && "mkv"@[2] == 'v'
            && "avi"@.len() == 3 && "avi"@[0] == 'a' && "avi"@[1] == 'v' && "avi"@[2] == 'i'
            && "webm"@.len() == 4 && "webm"@[0] == 'w' && "webm"@[1] == 'e' && "webm"@[2] == 'b' && "webm"@[3] == 'm'
            && "mov"@.len() == 3 && "mov"@[0] == 'm' && "mov"@[1] == 'o' && "mov"@[2] == 'v'
            && "wmv"@.len() == 3 && "wmv"@[0] == 'w' && "wmv"@[1] == 'm' && "wmv"@[2] == 'v'
            && "flv"@.len() == 3 && "flv"@[0] == 'f' && "flv"@[1] == 'l' && "flv"@[2] == 'v'
            && "m4v"@.len() == 3 && "m4v"@[0] == 'm' && "m4v"@[1] == '4' && "m4v"@[2] == 'v'
            && "mpg"@.len() == 3 && "mpg"@[0] == 'm' && "mpg"@[1] == 'p' && "mpg"@[2] == 'g'
            && "mpeg"@.len() == 4 && "mpeg"@[0] == 'm' && "mpeg"@[1] == 'p' && "mpeg"@[2] == 'e' && "mpeg"@[3] == 'g'
            && "3gp"@.len() == 3 && "3gp"@[0] == '3' && "3gp"@[1] == 'g' && "3gp"@[2] == 'p'
            && "ogv"@.len() == 3 && "ogv"@[0] == 'o' && "ogv"@[1] == 'g' && "ogv"@[2] == 'v'
            && "pdf"@.len() == 3 && "pdf"@[0] == 'p' && "pdf"@[1] == 'd' && "pdf"@[2] == 'f'
            && "doc"@.len() == 3 && "doc"@[0] == 'd' && "doc"@[1] == 'o' && "doc"@[2] == 'c'
            && "docx"@.len() == 4 && "docx"@[0] == 'd' && "docx"@[1] == 'o' && "docx"@[2] == 'c' && "docx"@[3] == 'x'
            && "odt"@.len() == 3 && "odt"@[0] == 'o' && "odt"@[1] == 'd' && "odt"@[2] == 't'
            && "rtf"@.len() == 3 && "rtf"@[0] == 'r' && "rtf"@[1] == 't' && "rtf"@[2] == 'f'
            && "epub"@.len() == 4 && "epub"@[0] == 'e' && "epub"@[1] == 'p' && "epub"@[2] == 'u' && "epub"@[3] == 'b'
            && "djvu"@.len() == 4 && "djvu"@[0] == 'd' && "djvu"@[1] == 'j' && "djvu"@[2] == 'v' && "djvu"@[3] == 'u'
            && "pages"@.len() == 5 && "pages"@[0] == 'p' && "pages"@[1] == 'a' && "pages"@[2] == 'g' && "pages"@[3] == 'e' && "pages"@[4] == 's'
            && "md"@.len() == 2 && "md"@[0] == 'm' && "md"@[1] == 'd'
            && "markdown"@.len() == 8 && "markdown"@[0] == 'm' && "markdown"@[1] == 'a' && "markdown"@[2] == 'r' && "markdown"@[3] == 'k' && "markdown"@[4] == 'd' && "markdown"@[5] == 'o' && "markdown"@[6] == 'w' && "markdown"@[7] == 'n'
            && "rst"@.len() == 3 && "rst"@[0] == 'r' && "rst"@[1] == 's' && "rst"@[2] == 't'
            && "adoc"@.len() == 4 && "adoc"@[0] == 'a' && "adoc"@[1] == 'd' && "adoc"@[2] == 'o' && "adoc"@[3] == 'c'
            && "tex"@.len() == 3 && "tex"@[0] == 't' && "tex"@[1] == 'e' && "tex"@[2] == 'x'
            && "latex"@.len() == 5 && "latex"@[0] == 'l' && "latex"@[1] == 'a' && "latex"@[2] == 't' && "latex"@[3] == 'e' && "latex"@[4] == 'x'
            && "xls"@.len() == 3 && "xls"@[0] == 'x' && "xls"@[1] == 'l' && "xls"@[2] == 's'
            && "xlsx"@.len() == 4 && "xlsx"@[0] == 'x' && "xlsx"@[1] == 'l' && "xlsx"@[2] == 's' && "xlsx"@[3] == 'x'
            && "ods"@.len() == 3 && "ods"@[0] == 'o' && "ods"@[1] == 'd' && "ods"@[2] == 's'
            && "csv"@.len() == 3 && "csv"@[0] == 'c' && "csv"@[1] == 's' && "csv"@[2] == 'v'
            && "tsv"@.len() == 3 && "tsv"@[0] == 't' && "tsv"@[1] == 's' && "tsv"@[2] == 'v'
            && "numbers"@.len() == 7 && "numbers"@[0] == 'n' && "numbers"@[1] == 'u' && "numbers"@[2] == 'm' && "numbers"@[3] == 'b' && "numbers"@[4] == 'e' && "numbers"@[5] == 'r' && "numbers"@[6] == 's'
            && "ppt"@.len() == 3 && "ppt"@[0] == 'p' && "ppt"@[1] == 'p' && "ppt"@[2] == 't'
            && "pptx"@.len() == 4 && "pptx"@[0] == 'p' && "pptx"@[1] == 'p' && "pptx"@[2] == 't' && "pptx"@[3] == 'x'
            && "odp"@.len() == 3 && "odp"@[0] == 'o' && "odp"@[1] == 'd' && "odp"@[2] == 'p'
            && "key"@.len() == 3 && "key"@[0] == 'k' && "key"@[1] == 'e' && "key"@[2] == 'y'
            && "odg"@.len() == 3 && "odg"@[0] == 'o' && "odg"@[1] == 'd' && "odg"@[2] == 'g'
            && "vsd"@.len() == 3 && "vsd"@[0] == 'v' && "vsd"@[1] == 's' && "vsd"@[2] == 'd'
            && "vsdx"@.len() == 4 && "vsdx"@[0] == 'v' && "vsdx"@[1] == 's' && "vsdx"@[2] == 'd' && "vsdx"@[3] == 'x'
            && "dia"@.len() == 3 && "dia"@[0] == 'd' && "dia"@[1] == 'i' && "dia"@[2] == 'a'
            && "zip"@.len() == 3 && "zip"@[0] == 'z' && "zip"@[1] == 'i' && "zip"@[2] == 'p'
            && "tar"@.len() == 3 && "tar"@[0] == 't' && "tar"@[1] == 'a' && "tar"@[2] == 'r'
            && "gz"@.len() == 2 && "gz"@[0] == 'g' && "gz"@[1] == 'z'
            && "bz2"@.len() == 3 && "bz2"@[0] == 'b' && "bz2"@[1] == 'z' && "bz2"@[2] == '2'
            && "xz"@.len() == 2 && "xz"@[0] == 'x' && "xz"@[1] == 'z'
            && "zst"@.len() == 3 && "zst"@[0] == 'z' && "zst"@[1] == 's' && "zst"@[2] == 't'
            && "lz4"@.len() == 3 && "lz4"@[0] == 'l' && "lz4"@[1] == 'z' && "lz4"@[2] == '4'
            && "lzma"@.len() == 4 && "lzma"@[0] == 'l' && "lzma"@[1] == 'z' && "lzma"@[2] == 'm' && "lzma"@[3] == 'a'
            && "7z"@.len() == 2 && "7z"@[0] == '7' && "7z"@[1] == 'z'
            && "rar"@.len() == 3 && "rar"@[0] == 'r' && "rar"@[1] == 'a' && "rar"@[2] == 'r'
            && "deb"@.len() == 3 && "deb"@[0] == 'd' && "deb"@[1] == 'e' && "deb"@[2] == 'b'
            && "rpm"@.len() == 3 && "rpm"@[0] == 'r' && "rpm"@[1] == 'p' && "rpm"@[2] == 'm'
            && "flatpak"@.len() == 7 && "flatpak"@[0] == 'f' && "flatpak"@[1] == 'l' && "flatpak"@[2] == 'a' && "flatpak"@[3] == 't' && "flatpak"@[4] == 'p' && "flatpak"@[5] == 'a' && "flatpak"@[6] == 'k'
            && "snap"@.len() == 4 && "snap"@[0] == 's' && "snap"@[1] == 'n' && "snap"@[2] == 'a' && "snap"@[3] == 'p'
            && "cab"@.len() == 3 && "cab"@[0] == 'c' && "cab"@[1] == 'a' && "cab"@[2] == 'b'
            && "cpio"@.len() == 4 && "cpio"@[0] == 'c' && "cpio"@[1] == 'p' && "cpio"@[2] == 'i' && "cpio"@[3] == 'o'
            && "ar"@.len() == 2 && "ar"@[0] == 'a' && "ar"@[1] == 'r'
            && "tgz"@.len() == 3 && "tgz"@[0] == 't' && "tgz"@[1] == 'g' && "tgz"@[2] == 'z'
            && "tbz2"@.len() == 4 && "tbz2"@[0] == 't' && "tbz2"@[1] == 'b' && "tbz2"@[2] == 'z' && "tbz2"@[3] == '2'
            && "txz"@.len() == 3 && "txz"@[0] == 't' && "txz"@[1] == 'x' && "txz"@[2] == 'z'
            && "ttf"@.len() == 3 && "ttf"@[0] == 't' && "ttf"@[1] == 't' && "ttf"@[2] == 'f'
            && "otf"@.len() == 3 && "otf"@[0] == 'o' && "otf"@[1] == 't' && "otf"@[2] == 'f'
            && "woff"@.len() == 4 && "woff"@[0] == 'w' && "woff"@[1] == 'o' && "woff"@[2] == 'f' && "woff"@[3] == 'f'
            && "woff2"@.len() == 5 && "woff2"@[0] == 'w' && "woff2"@[1] == 'o' && "woff2"@[2] == 'f' && "woff2"@[3] == 'f' && "woff2"@[4] == '2'
            && "eot"@.len() == 3 && "eot"@[0] == 'e' && "eot"@[1] == 'o' && "eot"@[2] == 't'
            && "exe"@.len() == 3 && "exe"@[0] == 'e' && "exe"@[1] == 'x' && "exe"@[2] == 'e'
            && "msi"@.len() == 3 && "msi"@[0] == 'm' && "msi"@[1] == 's' && "msi"@[2] == 'i'
            && "bin"@.len() == 3 && "bin"@[0] == 'b' && "bin"@[1] == 'i' && "bin"@[2] == 'n'
            && "appimage"@.len() == 8 && "appimage"@[0] == 'a' && "appimage"@[1] == 'p' && "appimage"@[2] == 'p' && "appimage"@[3] == 'i' && "appimage"@[4] == 'm' && "appimage"@[5] == 'a' && "appimage"@[6] == 'g' && "appimage"@[7] == 'e'
            && "run"@.len() == 3 && "run"@[0] == 'r' && "run"@[1] == 'u' && "run"@[2] == 'n'
            && "dmg"@.len() == 3 && "dmg"@[0] == 'd' && "dmg"@[1] == 'm' && "dmg"@[2] == 'g'
            && "pkg"@.len() == 3 && "pkg"@[0] == 'p' && "pkg"@[1] == 'k' && "pkg"@[2] == 'g'
            && "so"@.len() == 2 && "so"@[0] == 's' && "so"@[1] == 'o'
            && "dll"@.len() == 3 && "dll"@[0] == 'd' && "dll"@[1] == 'l' && "dll"@[2] == 'l'
            && "dylib"@.len() == 5 && "dylib"@[0] == 'd' && "dylib"@[1] == 'y' && "dylib"@[2] == 'l' && "dylib"@[3] == 'i' && "dylib"@[4] == 'b'
            && "iso"@.len() == 3 && "iso"@[0] == 'i' && "iso"@[1] == 's' && "iso"@[2] == 'o'
            && "img"@.len() == 3 && "img"@[0] == 'i' && "img"@[1] == 'm' && "img"@[2] == 'g'
            && "pem"@.len() == 3 && "pem"@[0] == 'p' && "pem"@[1] == 'e' && "pem"@[2] == 'm'
            && "crt"@.len() == 3 && "crt"@[0] == 'c' && "crt"@[1] == 'r' && "crt"@[2] == 't'
            && "cer"@.len() == 3 && "cer"@[0] == 'c' && "cer"@[1] == 'e' && "cer"@[2] == 'r'
            && "p12"@.len() == 3 && "p12"@[0] == 'p' && "p12"@[1] == '1' && "p12"@[2] == '2'
            && "pfx"@.len() == 3 && "pfx"@[0] == 'p' && "pfx"@[1] == 'f' && "pfx"@[2] == 'x'
            && "xpi"@.len() == 3 && "xpi"@[0] == 'x' && "xpi"@[1] == 'p' && "xpi"@[2] == 'i'
            && "crx"@.len() == 3 && "crx"@[0] == 'c' && "crx"@[1] == 'r' && "crx"@[2] == 'x'
            && "fw"@.len() == 2 && "fw"@[0] == 'f' && "fw"@[1] == 'w'
            && "rom"@.len() == 3 && "rom"@[0] == 'r' && "rom"@[1] == 'o' && "rom"@[2] == 'm'
            && "bios"@.len() == 4 && "bios"@[0] == 'b' && "bios"@[1] == 'i' && "bios"@[2] == 'o' && "bios"@[3] == 's'
            && "rss"@.len() == 3 && "rss"@[0] == 'r' && "rss"@[1] == 's' && "rss"@[2] == 's'
            && "atom"@.len() == 4 && "atom"@[0] == 'a' && "atom"@[1] == 't' && "atom"@[2] == 'o' && "atom"@[3] == 'm'
            && "vcf"@.len() == 3 && "vcf"@[0] == 'v' && "vcf"@[1] == 'c' && "vcf"@[2] == 'f'
            && "vcard"@.len() == 5 && "vcard"@[0] == 'v' && "vcard"@[1] == 'c' && "vcard"@[2] == 'a' && "vcard"@[3] == 'r' && "vcard"@[4] == 'd'
            && "ics"@.len() == 3 && "ics"@[0] == 'i' && "ics"@[1] == 'c' && "ics"@[2] == 's'
            && "ical"@.len() == 4 && "ical"@[0] == 'i' && "ical"@[1] == 'c' && "ical"@[2] == 'a' && "ical"@[3] == 'l'
            && "css"@.len() == 3 && "css"@[0] == 'c' && "css"@[1] == 's' && "css"@[2] == 's'
            && "scss"@.len() == 4 && "scss"@[0] == 's' && "scss"@[1] == 'c' && "scss"@[2] == 's' && "scss"@[3] == 's'
            && "sass"@.len() == 4 && "sass"@[0] == 's' && "sass"@[1] == 'a' && "sass"@[2] == 's' && "sass"@[3] == 's'
            && "less"@.len() == 4 && "less"@[0] == 'l' && "less"@[1] == 'e' && "less"@[2] == 's' && "less"@[3] == 's'
            && "styl"@.len() == 4 && "styl"@[0] == 's' && "styl"@[1] == 't' && "styl"@[2] == 'y' && "styl"@[3] == 'l'
            && "json"@.len() == 4 && "json"@[0] == 'j' && "json"@[1] == 's' && "json"@[2] == 'o' && "json"@[3] == 'n'
            && "yaml"@.len() == 4 && "yaml"@[0] == 'y' && "yaml"@[1] == 'a' && "yaml"@[2] == 'm' && "yaml"@[3] == 'l'
            && "yml"@.len() == 3 && "yml"@[0] == 'y' && "yml"@[1] == 'm' && "yml"@[2] == 'l'
            && "xml"@.len() == 3 && "xml"@[0] == 'x' && "xml"@[1] == 'm' && "xml"@[2] == 'l'
            && "toml"@.len() == 4 && "toml"@[0] == 't' && "toml"@[1] == 'o' && "toml"@[2] == 'm' && "toml"@[3] == 'l'
            && "ini"@.len() == 3 && "ini"@[0] == 'i' && "ini"@[1] == 'n' && "ini"@[2] == 'i'
    );
}

/// Source, script, markup and configuration extensions of the table
/// (part 8) get the generic text icon.
proof fn lemma_icons_code_8()
    ensures
        icon_for_extension("cfg"@) == "text-x-generic-symbolic"@,
        icon_for_extension("conf"@) == "text-x-generic-symbolic"@,
        icon_for_extension("env"@) == "text-x-generic-symbolic"@,
        icon_for_extension("properties"@) == "text-x-generic-symbolic"@,
        icon_for_extension("plist"@) == "text-x-generic-symbolic"@,
        icon_for_extension("reg"@) == "text-x-generic-symbolic"@,
        icon_for_extension("sql"@) == "text-x-generic-symbolic"@,
        icon_for_extension("graphql"@) == "text-x-generic-symbolic"@,
        icon_for_extension("proto"@) == "text-x-generic-symbolic"@,
        icon_for_extension("ts"@) == "text-x-generic-symbolic"@,
{
    reveal_strlit("jpg");
    reveal_strlit("jpeg");
    reveal_strlit("png");
    reveal_strlit("gif");
    reveal_strlit("svg");
    reveal_strlit("webp");
    reveal_strlit("bmp");
    reveal_strlit("ico");
    reveal_strlit("tiff");
    reveal_strlit("tif");
    reveal_strlit("heic");
    reveal_strlit("heif");
    reveal_strlit("avif");
    reveal_strlit("raw");
    reveal_strlit("cr2");
    reveal_strlit("nef");
    reveal_strlit("psd");
    reveal_strlit("xcf");
    reveal_strlit("mp3");
    reveal_strlit("flac");
    reveal_strlit("ogg");
    reveal_strlit("oga");
    reveal_strlit("wav");
    reveal_strlit("aac");
    reveal_strlit("wma");
    reveal_strlit("m4a");
    reveal_strlit("opus");
    reveal_strlit("aiff");
    reveal_strlit("mid");
    reveal_strlit("midi");
    reveal_strlit("ac3");
    reveal_strlit("mp4");
    reveal_strlit("mkv");
    reveal_strlit("avi");
    reveal_strlit("webm");
    reveal_strlit("mov");
    reveal_strlit("wmv");
    reveal_strlit("flv");
    reveal_strlit("m4v");
    reveal_strlit("mpg");
    reveal_strlit("mpeg");
    reveal_strlit("3gp");
    reveal_strlit("ogv");
    reveal_strlit("pdf");
    reveal_strlit("doc");
    reveal_strlit("docx");
    reveal_strlit("odt");
    reveal_strlit("rtf");
    reveal_strlit("epub");
    reveal_strlit("djvu");
    reveal_strlit("pages");
    reveal_strlit("md");
    reveal_strlit("markdown");
    reveal_strlit("rst");
    reveal_strlit("adoc");
    reveal_strlit("tex");
    reveal_strlit("latex");
    reveal_strlit("xls");
    reveal_strlit("xlsx");
    reveal_strlit("ods");
    reveal_strlit("csv");
    reveal_strlit("tsv");
    reveal_strlit("numbers");
    reveal_strlit("ppt");
    reveal_strlit("pptx");
    reveal_strlit("odp");
    reveal_strlit("key");
    reveal_strlit("odg");
    reveal_strlit("vsd");
    reveal_strlit("vsdx");
    reveal_strlit("dia");
    reveal_strlit("zip");
    reveal_strlit("tar");
    reveal_strlit("gz");
    reveal_strlit("bz2");
    reveal_strlit("xz");
    reveal_strlit("zst");
    reveal_strlit("lz4");
    reveal_strlit("lzma");
    reveal_strlit("7z");
    reveal_strlit("rar");
    reveal_strlit("deb");
    reveal_strlit("rpm");
    reveal_strlit("flatpak");
    reveal_strlit("snap");
    reveal_strlit("cab");
    reveal_strlit("cpio");
    reveal_strlit("ar");
    reveal_strlit("tgz");
    reveal_strlit("tbz2");
    reveal_strlit("txz");
    reveal_strlit("ttf");
    reveal_strlit("otf");
    reveal_strlit("woff");
    reveal_strlit("woff2");
    reveal_strlit("eot");
    reveal_strlit("exe");
    reveal_strlit("msi");
    reveal_strlit("bin");
    reveal_strlit("appimage");
    reveal_strlit("run");
    reveal_strlit("dmg");
    reveal_strlit("pkg");
    reveal_strlit("so");
    reveal_strlit("dll");
    reveal_strlit("dylib");
    reveal_strlit("iso");
    reveal_strlit("img");
    reveal_strlit("pem");
    reveal_strlit("crt");
    reveal_strlit("cer");
    reveal_strlit("p12");
    reveal_strlit("pfx");
    reveal_strlit("xpi");
    reveal_strlit("crx");
    reveal_strlit("fw");
    reveal_strlit("rom");
    reveal_strlit("bios");
    reveal_strlit("rss");
    reveal_strlit("atom");
    reveal_strlit("vcf");
    reveal_strlit("vcard");
    reveal_strlit("ics");
    reveal_strlit("ical");
    reveal_strlit("cfg");
    reveal_strlit("conf");
    reveal_strlit("env");
    reveal_strlit("properties");
    reveal_strlit("plist");
    reveal_strlit("reg");
    reveal_strlit("sql");
    reveal_strlit("graphql");
    reveal_strlit("proto");
    reveal_strlit("ts");
    assert(
        "jpg"@.len() == 3 && "jpg"@[0] == 'j' && "jpg"@[1] == 'p' && "jpg"@[2] == 'g'
            && "jpeg"@.len() == 4 && "jpeg"@[0] == 'j' && "jpeg"@[1] == 'p' && "jpeg"@[2] == 'e' && "jpeg"@[3] == 'g'
            && "png"@.len() == 3 && "png"@[0] == 'p' && "png"@[1] == 'n' && "png"@[2] == 'g'
            && "gif"@.len() == 3 && "gif"@[0] == 'g' && "gif"@[1] == 'i' && "gif"@[2] == 'f'
            && "svg"@.len() == 3 && "svg"@[0] == 's' && "svg"@[1] == 'v' && "svg"@[2] == 'g'
            && "webp"@.len() == 4 && "webp"@[0] == 'w' && "webp"@[1] == 'e' && "webp"@[2] == 'b' && "webp"@[3] == 'p'
            && "bmp"@.len() == 3 && "bmp"@[0] == 'b' && "bmp"@[1] == 'm' && "bmp"@[2] == 'p'
            && "ico"@.len() == 3 && "ico"@[0] == 'i' && "ico"@[1] == 'c' && "ico"@[2] == 'o'
            && "tiff"@.len() == 4 && "tiff"@[0] == 't' && "tiff"@[1] == 'i' && "tiff"@[2] == 'f' && "tiff"@[3] == 'f'
            && "tif"@.len() == 3 && "tif"@[0] == 't' && "tif"@[1] == 'i' && "tif"@[2] == 'f'
            && "heic"@.len() == 4 && "heic"@[0] == 'h' && "heic"@[1] == 'e' && "heic"@[2] == 'i' && "heic"@[3] == 'c'
            && "heif"@.len() == 4 && "heif"@[0] == 'h' && "heif"@[1] == 'e' && "heif"@[2] == 'i' && "heif"@[3] == 'f'
            && "avif"@.len() == 4 && "avif"@[0] == 'a' && "avif"@[1] == 'v' && "avif"@[2] == 'i' && "avif"@[3] == 'f'
            && "raw"@.len() == 3 && "raw"@[0] == 'r' && "raw"@[1] == 'a' && "raw"@[2] == 'w'
            && "cr2"@.len() == 3 && "cr2"@[0] == 'c' && "cr2"@[1] == 'r' && "cr2"@[2] == '2'
            && "nef"@.len() == 3 && "nef"@[0] == 'n' && "nef"@[1] == 'e' && "nef"@[2] == 'f'
            && "psd"@.len() == 3 && "psd"@[0] == 'p' && "psd"@[1] == 's' && "psd"@[2] == 'd'
            && "xcf"@.len() == 3 && "xcf"@[0] == 'x' && "xcf"@[1] == 'c' && "xcf"@[2] == 'f'
            && "mp3"@.len() == 3 && "mp3"@[0] == 'm' && "mp3"@[1] == 'p' && "mp3"@[2] == '3'
            && "flac"@.len() == 4 && "flac"@[0] == 'f' && "flac"@[1] == 'l' && "flac"@[2] == 'a' && "flac"@[3] == 'c'
            && "ogg"@.len() == 3 && "ogg"@[0] == 'o' && "ogg"@[1] == 'g' && "ogg"@[2] == 'g'
            && "oga"@.len() == 3 && "oga"@[0] == 'o' && "oga"@[1] == 'g' && "oga"@[2] == 'a'
            && "wav"@.len() == 3 && "wav"@[0] == 'w' && "wav"@[1] == 'a' && "wav"@[2] == 'v'
            && "aac"@.len() == 3 && "aac"@[0] == 'a' && "aac"@[1] == 'a' && "aac"@[2] == 'c'
            && "wma"@.len() == 3 && "wma"@[0] == 'w' && "wma"@[1] == 'm' && "wma"@[2] == 'a'
            && "m4a"@.len() == 3 && "m4a"@[0] == 'm' && "m4a"@[1] == '4' && "m4a"@[2] == 'a'
            && "opus"@.len() == 4 && "opus"@[0] == 'o' && "opus"@[1] == 'p' && "opus"@[2] == 'u' && "opus"@[3] == 's'
            && "aiff"@.len() == 4 && "aiff"@[0] == 'a' && "aiff"@[1] == 'i' && "aiff"@[2] == 'f' && "aiff"@[3] == 'f'
            && "mid"@.len() == 3 && "mid"@[0] == 'm' && "mid"@[1] == 'i' && "mid"@[2] == 'd'
            && "midi"@.len() == 4 && "midi"@[0] == 'm' && "midi"@[1] == 'i' && "midi"@[2] == 'd' && "midi"@[3] == 'i'
            && "ac3"@.len() == 3 && "ac3"@[0] == 'a' && "ac3"@[1] == 'c' && "ac3"@[2] == '3'
            && "mp4"@.len() == 3 && "mp4"@[0] == 'm' && "mp4"@[1] == 'p' && "mp4"@[2] == '4'
            && "mkv"@.len() == 3 && "mkv"@[0] == 'm' && "mkv"@[1] == 'k' && "mkv"@[2] == 'v'
            && "avi"@.len() == 3 && "avi"@[0] == 'a' && "avi"@[1] == 'v' && "avi"@[2] == 'i'
            && "webm"@.len() == 4 && "webm"@[0] == 'w' && "webm"@[1] == 'e' && "webm"@[2] == 'b' && "webm"@[3] == 'm'
            && "mov"@.len() == 3 && "mov"@[0] == 'm' && "mov"@[1] == 'o' && "mov"@[2] == 'v'
            && "wmv"@.len() == 3 && "wmv"@[0] == 'w' && "wmv"@[1] == 'm' && "wmv"@[2] == 'v'
            && "flv"@.len() == 3 && "flv"@[0] == 'f' && "flv"@[1] == 'l' && "flv"@[2] == 'v'
            && "m4v"@.len() == 3 && "m4v"@[0] == 'm' && "m4v"@[1] == '4' && "m4v"@[2] == 'v'
            && "mpg"@.len() == 3 && "mpg"@[0] == 'm' && "mpg"@[1] == 'p' && "mpg"@[2] == 'g'
            && "mpeg"@.len() == 4 && "mpeg"@[0] == 'm' && "mpeg"@[1] == 'p' && "mpeg"@[2] == 'e' && "mpeg"@[3] == 'g'
            && "3gp"@.len() == 3 && "3gp"@[0] == '3' && "3gp"@[1] == 'g' && "3gp"@[2] == 'p'
            && "ogv"@.len() == 3 && "ogv"@[0] == 'o' && "ogv"@[1] == 'g' && "ogv"@[2] == 'v'
            && "pdf"@.len() == 3 && "pdf"@[0] == 'p' && "pdf"@[1] == 'd' && "pdf"@[2] == 'f'
            && "doc"@.len() == 3 && "doc"@[0] == 'd' && "doc"@[1] == 'o' && "doc"@[2] == 'c'
            && "docx"@.len() == 4 && "docx"@[0] == 'd' && "docx"@[1] == 'o' && "docx"@[2] == 'c' && "docx"@[3] == 'x'
            && "odt"@.len() == 3 && "odt"@[0] == 'o' && "odt"@[1] == 'd' && "odt"@[2] == 't'
            && "rtf"@.len() == 3 && "rtf"@[0] == 'r' && "rtf"@[1] == 't' && "rtf"@[2] == 'f'
            && "epub"@.len() == 4 && "epub"@[0] == 'e' && "epub"@[1] == 'p' && "epub"@[2] == 'u' && "epub"@[3] == 'b'
            && "djvu"@.len() == 4 && "djvu"@[0] == 'd' && "djvu"@[1] == 'j' && "djvu"@[2] == 'v' && "djvu"@[3] == 'u'
            && "pages"@.len() == 5 && "pages"@[0] == 'p' && "pages"@[1] == 'a' && "pages"@[2] == 'g' && "pages"@[3] == 'e' && "pages"@[4] == 's'
            && "md"@.len() == 2 && "md"@[0] == 'm' && "md"@[1] == 'd'
            && "markdown"@.len() == 8 && "markdown"@[0] == 'm' && "markdown"@[1] == 'a' && "markdown"@[2] == 'r' && "markdown"@[3] == 'k' && "markdown"@[4] == 'd' && "markdown"@[5] == 'o' && "markdown"@[6] == 'w' && "markdown"@[7] == 'n'
            && "rst"@.len() == 3 && "rst"@[0] == 'r' && "rst"@[1] == 's' && "rst"@[2] == 't'
            && "adoc"@.len() == 4 && "adoc"@[0] == 'a' && "adoc"@[1] == 'd' && "adoc"@[2] == 'o' && "adoc"@[3] == 'c'
            && "tex"@.len() == 3 && "tex"@[0] == 't' && "tex"@[1] == 'e' && "tex"@[2] == 'x'
            && "latex"@.len() == 5 && "latex"@[0] == 'l' && "latex"@[1] == 'a' && "latex"@[2] == 't' && "latex"@[3] == 'e' && "latex"@[4] == 'x'
            && "xls"@.len() == 3 && "xls"@[0] == 'x' && "xls"@[1] == 'l' && "xls"@[2] == 's'
            && "xlsx"@.len() == 4 && "xlsx"@[0] == 'x' && "xlsx"@[1] == 'l' && "xlsx"@[2] == 's' && "xlsx"@[3] == 'x'
            && "ods"@.len() == 3 && "ods"@[0] == 'o' && "ods"@[1] == 'd' && "ods"@[2] == 's'
            && "csv"@.len() == 3 && "csv"@[0] == 'c' && "csv"@[1] == 's' && "csv"@[2] == 'v'
            && "tsv"@.len() == 3 && "tsv"@[0] == 't' && "tsv"@[1] == 's' && "tsv"@[2] == 'v'
            && "numbers"@.len() == 7 && "numbers"@[0] == 'n' && "numbers"@[1] == 'u' && "numbers"@[2] == 'm' && "numbers"@[3] == 'b' && "numbers"@[4] == 'e' && "numbers"@[5] == 'r' && "numbers"@[6] == 's'
            && "ppt"@.len() == 3 && "ppt"@[0] == 'p' && "ppt"@[1] == 'p' && "ppt"@[2] == 't'
            && "pptx"@.len() == 4 && "pptx"@[0] == 'p' && "pptx"@[1] == 'p' && "pptx"@[2] == 't' && "pptx"@[3] == 'x'
            && "odp"@.len() == 3 && "odp"@[0] == 'o' && "odp"@[1] == 'd' && "odp"@[2] == 'p'
            && "key"@.len() == 3 && "key"@[0] == 'k' && "key"@[1] == 'e' && "key"@[2] == 'y'
            && "odg"@.len() == 3 && "odg"@[0] == 'o' && "odg"@[1] == 'd' && "odg"@[2] == 'g'
            && "vsd"@.len() == 3 && "vsd"@[0] == 'v' && "vsd"@[1] == 's' && "vsd"@[2] == 'd'
            && "vsdx"@.len() == 4 && "vsdx"@[0] == 'v' && "vsdx"@[1] == 's' && "vsdx"@[2] == 'd' && "vsdx"@[3] == 'x'
            && "dia"@.len() == 3 && "dia"@[0] == 'd' && "dia"@[1] == 'i' && "dia"@[2] == 'a'
            && "zip"@.len() == 3 && "zip"@[0] == 'z' && "zip"@[1] == 'i' && "zip"@[2] == 'p'
            && "tar"@.len() == 3 && "tar"@[0] == 't' && "tar"@[1] == 'a' && "tar"@[2] == 'r'
            && "gz"@.len() == 2 && "gz"@[0] == 'g' && "gz"@[1] == 'z'
            && "bz2"@.len() == 3 && "bz2"@[0] == 'b' && "bz2"@[1] == 'z' && "bz2"@[2] == '2'
            && "xz"@.len() == 2 && "xz"@[0] == 'x' && "xz"@[1] == 'z'
            && "zst"@.len() == 3 && "zst"@[0] == 'z' && "zst"@[1] == 's' && "zst"@[2] == 't'
            && "lz4"@.len() == 3 && "lz4"@[0] == 'l' && "lz4"@[1] == 'z' && "lz4"@[2] == '4'
            && "lzma"@.len() == 4 && "lzma"@[0] == 'l' && "lzma"@[1] == 'z' && "lzma"@[2] == 'm' && "lzma"@[3] == 'a'
            && "7z"@.len() == 2 && "7z"@[0] == '7' && "7z"@[1] == 'z'
            && "rar"@.len() == 3 && "rar"@[0] == 'r' && "rar"@[1] == 'a' && "rar"@[2] == 'r'
            && "deb"@.len() == 3 && "deb"@[0] == 'd' && "deb"@[1] == 'e' && "deb"@[2] == 'b'
            && "rpm"@.len() == 3 && "rpm"@[0] == 'r' && "rpm"@[1] == 'p' && "rpm"@[2] == 'm'
            && "flatpak"@.len() == 7 && "flatpak"@[0] == 'f' && "flatpak"@[1] == 'l' && "flatpak"@[2] == 'a' && "flatpak"@[3] == 't' && "flatpak"@[4] == 'p' && "flatpak"@[5] == 'a' && "flatpak"@[6] == 'k'
            && "snap"@.len() == 4 && "snap"@[0] == 's' && "snap"@[1] == 'n' && "snap"@[2] == 'a' && "snap"@[3] == 'p'
            && "cab"@.len() == 3 && "cab"@[0] == 'c' && "cab"@[1] == 'a' && "cab"@[2] == 'b'
            && "cpio"@.len() == 4 && "cpio"@[0] == 'c' && "cpio"@[1] == 'p' && "cpio"@[2] == 'i' && "cpio"@[3] == 'o'
            && "ar"@.len() == 2 && "ar"@[0] == 'a' && "ar"@[1] == 'r'
            && "tgz"@.len() == 3 && "tgz"@[0] == 't' && "tgz"@[1] == 'g' && "tgz"@[2] == 'z'
            && "tbz2"@.len() == 4 && "tbz2"@[0] == 't' && "tbz2"@[1] == 'b' && "tbz2"@[2] == 'z' && "tbz2"@[3] == '2'
            && "txz"@.len() == 3 && "txz"@[0] == 't' && "txz"@[1] == 'x' && "txz"@[2] == 'z'
            && "ttf"@.len() == 3 && "ttf"@[0] == 't' && "ttf"@[1] == 't' && "ttf"@[2] == 'f'
            && "otf"@.len() == 3 && "otf"@[0] == 'o' && "otf"@[1] == 't' && "otf"@[2] == 'f'
            && "woff"@.len() == 4 && "woff"@[0] == 'w' && "woff"@[1] == 'o' && "woff"@[2] == 'f' && "woff"@[3] == 'f'
            && "woff2"@.len() == 5 && "woff2"@[0] == 'w' && "woff2"@[1] == 'o' && "woff2"@[2] == 'f' && "woff2"@[3] == 'f' && "woff2"@[4] == '2'
            && "eot"@.len() == 3 && "eot"@[0] == 'e' && "eot"@[1] == 'o' && "eot"@[2] == 't'
            && "exe"@.len() == 3 && "exe"@[0] == 'e' && "exe"@[1] == 'x' && "exe"@[2] == 'e'
            && "msi"@.len() == 3 && "msi"@[0] == 'm' && "msi"@[1] == 's' && "msi"@[2] == 'i'
            && "bin"@.len() == 3 && "bin"@[0] == 'b' && "bin"@[1] == 'i' && "bin"@[2] == 'n'
            && "appimage"@.len() == 8 && "appimage"@[0] == 'a' && "appimage"@[1] == 'p' && "appimage"@[2] == 'p' && "appimage"@[3] == 'i' && "appimage"@[4] == 'm' && "appimage"@[5] == 'a' && "appimage"@[6] == 'g' && "appimage"@[7] == 'e'
            && "run"@.len() == 3 && "run"@[0] == 'r' && "run"@[1] == 'u' && "run"@[2] == 'n'
            && "dmg"@.len() == 3 && "dmg"@[0] == 'd' && "dmg"@[1] == 'm' && "dmg"@[2] == 'g'
            && "pkg"@.len() == 3 && "pkg"@[0] == 'p' && "pkg"@[1] == 'k' && "pkg"@[2] == 'g'
            && "so"@.len() == 2 && "so"@[0] == 's' && "so"@[1] == 'o'
            && "dll"@.len() == 3 && "dll"@[0] == 'd' && "dll"@[1] == 'l' && "dll"@[2] == 'l'
            && "dylib"@.len() == 5 && "dylib"@[0] == 'd' && "dylib"@[1] == 'y' && "dylib"@[2] == 'l' && "dylib"@[3] == 'i' && "dylib"@[4] == 'b'
            && "iso"@.len() == 3 && "iso"@[0] == 'i' && "iso"@[1] == 's' && "iso"@[2] == 'o'
            && "img"@.len() == 3 && "img"@[0] == 'i' && "img"@[1] == 'm' && "img"@[2] == 'g'
            && "pem"@.len() == 3 && "pem"@[0] == 'p' && "pem"@[1] == 'e' && "pem"@[2] == 'm'
            && "crt"@.len() == 3 && "crt"@[0] == 'c' && "crt"@[1] == 'r' && "crt"@[2] == 't'
            && "cer"@.len() == 3 && "cer"@[0] == 'c' && "cer"@[1] == 'e' && "cer"@[2] == 'r'
            && "p12"@.len() == 3 && "p12"@[0] == 'p' && "p12"@[1] == '1' && "p12"@[2] == '2'
            && "pfx"@.len() == 3 && "pfx"@[0] == 'p' && "pfx"@[1] == 'f' && "pfx"@[2] == 'x'
            && "xpi"@.len() == 3 && "xpi"@[0] == 'x' && "xpi"@[1] == 'p' && "xpi"@[2] == 'i'
            && "crx"@.len() == 3 && "crx"@[0] == 'c' && "crx"@[1] == 'r' && "crx"@[2] == 'x'
            && "fw"@.len() == 2 && "fw"@[0] == 'f' && "fw"@[1] == 'w'
            && "rom"@.len() == 3 && "rom"@[0] == 'r' && "rom"@[1] == 'o' && "rom"@[2] == 'm'
            && "bios"@.len() == 4 && "bios"@[0] == 'b' && "bios"@[1] == 'i' && "bios"@[2] == 'o' && "bios"@[3] == 's'
            && "rss"@.len() == 3 && "rss"@[0] == 'r' && "rss"@[1] == 's' && "rss"@[2] == 's'
            && "atom"@.len() == 4 && "atom"@[0] == 'a' && "atom"@[1] == 't' && "atom"@[2] == 'o' && "atom"@[3] == 'm'
            && "vcf"@.len() == 3 && "vcf"@[0] == 'v' && "vcf"@[1] == 'c' && "vcf"@[2] == 'f'
            && "vcard"@.len() == 5 && "vcard"@[0] == 'v' && "vcard"@[1] == 'c' && "vcard"@[2] == 'a' && "vcard"@[3] == 'r' && "vcard"@[4] == 'd'
            && "ics"@.len() == 3 && "ics"@[0] == 'i' && "ics"@[1] == 'c' && "ics"@[2] == 's'
            && "ical"@.len() == 4 && "ical"@[0] == 'i' && "ical"@[1] == 'c' && "ical"@[2] == 'a' && "ical"@[3] == 'l'
            && "cfg"@.len() == 3 && "cfg"@[0] == 'c' && "cfg"@[1] == 'f' && "cfg"@[2] == 'g'
            && "conf"@.len() == 4 && "conf"@[0] == 'c' && "conf"@[1] == 'o' && "conf"@[2] == 'n' && "conf"@[3] == 'f'
            && "env"@.len() == 3 && "env"@[0] == 'e' && "env"@[1] == 'n' && "env"@[2] == 'v'
            && "properties"@.len() == 10 && "properties"@[0] == 'p' && "properties"@[1] == 'r' && "properties"@[2] == 'o' && "properties"@[3] == 'p' && "properties"@[4] == 'e' && "properties"@[5] == 'r' && "properties"@[6] == 't' && "properties"@[7] == 'i' && "properties"@[8] == 'e' && "properties"@[9] == 's'
            && "plist"@.len() == 5 && "plist"@[0] == 'p' && "plist"@[1] == 'l' && "plist"@[2] == 'i' && "plist"@[3] == 's' && "plist"@[4] == 't'
            && "reg"@.len() == 3 && "reg"@[0] == 'r' && "reg"@[1] == 'e' && "reg"@[2] == 'g'
            && "sql"@.len() == 3 && "sql"@[0] == 's' && "sql"@[1] == 'q' && "sql"@[2] == 'l'
            && "graphql"@.len() == 7 && "graphql"@[0] == 'g' && "graphql"@[1] == 'r' && "graphql"@[2] == 'a' && "graphql"@[3] == 'p' && "graphql"@[4] == 'h' && "graphql"@[5] == 'q' && "graphql"@[6] == 'l'
            && "proto"@.len() == 5 && "proto"@[0] == 'p' && "proto"@[1] == 'r' && "proto"@[2] == 'o' && "proto"@[3] == 't' && "proto"@[4] == 'o'
            && "ts"@.len() == 2 && "ts"@[0] == 't' && "ts"@[1] == 's'
    );
}

/// The icon table: every extension it lists gets the icon of its
/// category, e.g. `png` an image, `mp3` audio, `zip` a package, `ics` a
/// calendar, and source, script, markup and configuration files such as
/// `rs`, `py` or `json` the generic text icon.
pub proof fn law_icon_table()
    ensures
        icon_for_extension("jpg"@) == "image-x-generic-symbolic"@,
        icon_for_extension("jpeg"@) == "image-x-generic-symbolic"@,
        icon_for_extension("png"@) == "image-x-generic-symbolic"@,
        icon_for_extension("gif"@) == "image-x-generic-symbolic"@,
        icon_for_extension("svg"@) == "image-x-generic-symbolic"@,
        icon_for_extension("webp"@) == "image-x-generic-symbolic"@,
        icon_for_extension("bmp"@) == "image-x-generic-symbolic"@,
        icon_for_extension("ico"@) == "image-x-generic-symbolic"@,
        icon_for_extension("tiff"@) == "image-x-generic-symbolic"@,
        icon_for_extension("tif"@) == "image-x-generic-symbolic"@,
        icon_for_extension("heic"@) == "image-x-generic-symbolic"@,
        icon_for_extension("heif"@) == "image-x-generic-symbolic"@,
        icon_for_extension("avif"@) == "image-x-generic-symbolic"@,
        icon_for_extension("raw"@) == "image-x-generic-symbolic"@,
        icon_for_extension("cr2"@) == "image-x-generic-symbolic"@,
        icon_for_extension("nef"@) == "image-x-generic-symbolic"@,
        icon_for_extension("psd"@) == "image-x-generic-symbolic"@,
        icon_for_extension("xcf"@) == "image-x-generic-symbolic"@,
        icon_for_extension("mp3"@) == "audio-x-generic-symbolic"@,
        icon_for_extension("flac"@) == "audio-x-generic-symbolic"@,
        icon_for_extension("ogg"@) == "audio-x-generic-symbolic"@,
        icon_for_extension("oga"@) == "audio-x-generic-symbolic"@,
        icon_for_extension("wav"@) == "audio-x-generic-symbolic"@,
        icon_for_extension("aac"@) == "audio-x-generic-symbolic"@,
        icon_for_extension("wma"@) == "audio-x-generic-symbolic"@,
        icon_for_extension("m4a"@) == "audio-x-generic-symbolic"@,
        icon_for_extension("opus"@) == "audio-x-generic-symbolic"@,
        icon_for_extension("aiff"@) == "audio-x-generic-symbolic"@,
        icon_for_extension("mid"@) == "audio-x-generic-symbolic"@,
        icon_for_extension("midi"@) == "audio-x-generic-symbolic"@,
        icon_for_extension("ac3"@) == "audio-x-generic-symbolic"@,
        icon_for_extension("mp4"@) == "video-x-generic-symbolic"@,
        icon_for_extension("mkv"@) == "video-x-generic-symbolic"@,
        icon_for_extension("avi"@) == "video-x-generic-symbolic"@,
        icon_for_extension("webm"@) == "video-x-generic-symbolic"@,
        icon_for_extension("mov"@) == "video-x-generic-symbolic"@,
        icon_for_extension("wmv"@) == "video-x-generic-symbolic"@,
        icon_for_extension("flv"@) == "video-x-generic-symbolic"@,
        icon_for_extension("m4v"@) == "video-x-generic-symbolic"@,
        icon_for_extension("mpg"@) == "video-x-generic-symbolic"@,
        icon_for_extension("mpeg"@) == "video-x-generic-symbolic"@,
        icon_for_extension("3gp"@) == "video-x-generic-symbolic"@,
        icon_for_extension("ogv"@) == "video-x-generic-symbolic"@,
        icon_for_extension("pdf"@) == "x-office-document-symbolic"@,
        icon_for_extension("doc"@) == "x-office-document-symbolic"@,
        icon_for_extension("docx"@) == "x-office-document-symbolic"@,
        icon_for_extension("odt"@) == "x-office-document-symbolic"@,
        icon_for_extension("rtf"@) == "x-office-document-symbolic"@,
        icon_for_extension("epub"@) == "x-office-document-symbolic"@,
        icon_for_extension("djvu"@) == "x-office-document-symbolic"@,
        icon_for_extension("pages"@) == "x-office-document-symbolic"@,
        icon_for_extension("md"@) == "x-office-document-symbolic"@,
        icon_for_extension("markdown"@) == "x-office-document-symbolic"@,
        icon_for_extension("rst"@) == "x-office-document-symbolic"@,
        icon_for_extension("adoc"@) == "x-office-document-symbolic"@,
        icon_for_extension("tex"@) == "x-office-document-symbolic"@,
        icon_for_extension("latex"@) == "x-office-document-symbolic"@,
        icon_for_extension("xls"@) == "x-office-spreadsheet-symbolic"@,
        icon_for_extension("xlsx"@) == "x-office-spreadsheet-symbolic"@,
        icon_for_extension("ods"@) == "x-office-spreadsheet-symbolic"@,
        icon_for_extension("csv"@) == "x-office-spreadsheet-symbolic"@,
        icon_for_extension("tsv"@) == "x-office-spreadsheet-symbolic"@,
        icon_for_extension("numbers"@) == "x-office-spreadsheet-symbolic"@,
        icon_for_extension("ppt"@) == "x-office-presentation-symbolic"@,
        icon_for_extension("pptx"@) == "x-office-presentation-symbolic"@,
        icon_for_extension("odp"@) == "x-office-presentation-symbolic"@,
        icon_for_extension("key"@) == "x-office-presentation-symbolic"@,
        icon_for_extension("odg"@) == "x-office-drawing-symbolic"@,
        icon_for_extension("vsd"@) == "x-office-drawing-symbolic"@,
        icon_for_extension("vsdx"@) == "x-office-drawing-symbolic"@,
        icon_for_extension("dia"@) == "x-office-drawing-symbolic"@,
        icon_for_extension("zip"@) == "package-x-generic-symbolic"@,
        icon_for_extension("tar"@) == "package-x-generic-symbolic"@,
        icon_for_extension("gz"@) == "package-x-generic-symbolic"@,
        icon_for_extension("bz2"@) == "package-x-generic-symbolic"@,
        icon_for_extension("xz"@) == "package-x-generic-symbolic"@,
        icon_for_extension("zst"@) == "package-x-generic-symbolic"@,
        icon_for_extension("lz4"@) == "package-x-generic-symbolic"@,
        icon_for_extension("lzma"@) == "package-x-generic-symbolic"@,
        icon_for_extension("7z"@) == "package-x-generic-symbolic"@,
        icon_for_extension("rar"@) == "package-x-generic-symbolic"@,
        icon_for_extension("deb"@) == "package-x-generic-symbolic"@,
        icon_for_extension("rpm"@) == "package-x-generic-symbolic"@,
        icon_for_extension("flatpak"@) == "package-x-generic-symbolic"@,
        icon_for_extension("snap"@) == "package-x-generic-symbolic"@,
        icon_for_extension("cab"@) == "package-x-generic-symbolic"@,
        icon_for_extension("cpio"@) == "package-x-generic-symbolic"@,
        icon_for_extension("ar"@) == "package-x-generic-symbolic"@,
        icon_for_extension("tgz"@) == "package-x-generic-symbolic"@,
        icon_for_extension("tbz2"@) == "package-x-generic-symbolic"@,
        icon_for_extension("txz"@) == "package-x-generic-symbolic"@,
        icon_for_extension("ttf"@) == "font-x-generic-symbolic"@,
        icon_for_extension("otf"@) == "font-x-generic-symbolic"@,
        icon_for_extension("woff"@) == "font-x-generic-symbolic"@,
        icon_for_extension("woff2"@) == "font-x-generic-symbolic"@,
        icon_for_extension("eot"@) == "font-x-generic-symbolic"@,
        icon_for_extension("exe"@) == "application-x-executable-symbolic"@,
        icon_for_extension("msi"@) == "application-x-executable-symbolic"@,
        icon_for_extension("bin"@) == "application-x-executable-symbolic"@,
        icon_for_extension("appimage"@) == "application-x-executable-symbolic"@,
        icon_for_extension("run"@) == "application-x-executable-symbolic"@,
        icon_for_extension("dmg"@) == "application-x-executable-symbolic"@,
        icon_for_extension("pkg"@) == "application-x-executable-symbolic"@,
        icon_for_extension("so"@) == "application-x-sharedlib-symbolic"@,
        icon_for_extension("dll"@) == "application-x-sharedlib-symbolic"@,
        icon_for_extension("dylib"@) == "application-x-sharedlib-symbolic"@,
        icon_for_extension("iso"@) == "media-optical-symbolic"@,
        icon_for_extension("img"@) == "media-optical-symbolic"@,
        icon_for_extension("pem"@) == "application-certificate-symbolic"@,
        icon_for_extension("crt"@) == "application-certificate-symbolic"@,
        icon_for_extension("cer"@) == "application-certificate-symbolic"@,
        icon_for_extension("p12"@) == "application-certificate-symbolic"@,
        icon_for_extension("pfx"@) == "application-certificate-symbolic"@,
        icon_for_extension("xpi"@) == "application-x-addon-symbolic"@,
        icon_for_extension("crx"@) == "application-x-addon-symbolic"@,
        icon_for_extension("fw"@) == "application-x-firmware-symbolic"@,
        icon_for_extension("rom"@) == "application-x-firmware-symbolic"@,
        icon_for_extension("bios"@) == "application-x-firmware-symbolic"@,
        icon_for_extension("rss"@) == "application-rss+xml-symbolic"@,
        icon_for_extension("atom"@) == "application-rss+xml-symbolic"@,
        icon_for_extension("vcf"@) == "x-office-address-book-symbolic"@,
        icon_for_extension("vcard"@) == "x-office-address-book-symbolic"@,
        icon_for_extension("ics"@) == "x-office-calendar-symbolic"@,
        icon_for_extension("ical"@) == "x-office-calendar-symbolic"@,
        icon_for_extension("sh"@) == "text-x-generic-symbolic"@,
        icon_for_extension("bash"@) == "text-x-generic-symbolic"@,
        icon_for_extension("zsh"@) == "text-x-generic-symbolic"@,
        icon_for_extension("fish"@) == "text-x-generic-symbolic"@,
        icon_for_extension("py"@) == "text-x-generic-symbolic"@,
        icon_for_extension("rb"@) == "text-x-generic-symbolic"@,
        icon_for_extension("pl"@) == "text-x-generic-symbolic"@,
        icon_for_extension("pm"@) == "text-x-generic-symbolic"@,
        icon_for_extension("php"@) == "text-x-generic-symbolic"@,
        icon_for_extension("js"@) == "text-x-generic-symbolic"@,
        icon_for_extension("mjs"@) == "text-x-generic-symbolic"@,
        icon_for_extension("cjs"@) == "text-x-generic-symbolic"@,
        icon_for_extension("jsx"@) == "text-x-generic-symbolic"@,
        icon_for_extension("tsx"@) == "text-x-generic-symbolic"@,
        icon_for_extension("lua"@) == "text-x-generic-symbolic"@,
        icon_for_extension("go"@) == "text-x-generic-symbolic"@,
        icon_for_extension("rs"@) == "text-x-generic-symbolic"@,
        icon_for_extension("c"@) == "text-x-generic-symbolic"@,
        icon_for_extension("cpp"@) == "text-x-generic-symbolic"@,
        icon_for_extension("cc"@) == "text-x-generic-symbolic"@,
        icon_for_extension("cxx"@) == "text-x-generic-symbolic"@,
        icon_for_extension("h"@) == "text-x-generic-symbolic"@,
        icon_for_extension("hpp"@) == "text-x-generic-symbolic"@,
        icon_for_extension("hxx"@) == "text-x-generic-symbolic"@,
        icon_for_extension("java"@) == "text-x-generic-symbolic"@,
        icon_for_extension("kt"@) == "text-x-generic-symbolic"@,
        icon_for_extension("kts"@) == "text-x-generic-symbolic"@,
        icon_for_extension("swift"@) == "text-x-generic-symbolic"@,
        icon_for_extension("dart"@) == "text-x-generic-symbolic"@,
        icon_for_extension("cs"@) == "text-x-generic-symbolic"@,
        icon_for_extension("vb"@) == "text-x-generic-symbolic"@,
        icon_for_extension("fs"@) == "text-x-generic-symbolic"@,
        icon_for_extension("r"@) == "text-x-generic-symbolic"@,
        icon_for_extension("scala"@) == "text-x-generic-symbolic"@,
        icon_for_extension("groovy"@) == "text-x-generic-symbolic"@,
        icon_for_extension("clj"@) == "text-x-generic-symbolic"@,
        icon_for_extension("ex"@) == "text-x-generic-symbolic"@,
        icon_for_extension("exs"@) == "text-x-generic-symbolic"@,
        icon_for_extension("erl"@) == "text-x-generic-symbolic"@,
        icon_for_extension("hs"@) == "text-x-generic-symbolic"@,
        icon_for_extension("ml"@) == "text-x-generic-symbolic"@,
        icon_for_extension("mli"@) == "text-x-generic-symbolic"@,
        icon_for_extension("ps1"@) == "text-x-generic-symbolic"@,
        icon_for_extension("bat"@) == "text-x-generic-symbolic"@,
        icon_for_extension("cmd"@) == "text-x-generic-symbolic"@,
        icon_for_extension("vbs"@) == "text-x-generic-symbolic"@,
        icon_for_extension("awk"@) == "text-x-generic-symbolic"@,
        icon_for_extension("sed"@) == "text-x-generic-symbolic"@,
        icon_for_extension("m"@) == "text-x-generic-symbolic"@,
        icon_for_extension("mm"@) == "text-x-generic-symbolic"@,
        icon_for_extension("v"@) == "text-x-generic-symbolic"@,
        icon_for_extension("sv"@) == "text-x-generic-symbolic"@,
        icon_for_extension("vhdl"@) == "text-x-generic-symbolic"@,
        icon_for_extension("zig"@) == "text-x-generic-symbolic"@,
        icon_for_extension("nim"@) == "text-x-generic-symbolic"@,
        icon_for_extension("cr"@) == "text-x-generic-symbolic"@,
        icon_for_extension("jl"@) == "text-x-generic-symbolic"@,
        icon_for_extension("tcl"@) == "text-x-generic-symbolic"@,
        icon_for_extension("lisp"@) == "text-x-generic-symbolic"@,
        icon_for_extension("el"@) == "text-x-generic-symbolic"@,
        icon_for_extension("vim"@) == "text-x-generic-symbolic"@,
        icon_for_extension("html"@) == "text-x-generic-symbolic"@,
        icon_for_extension("htm"@) == "text-x-generic-symbolic"@,
        icon_for_extension("xhtml"@) == "text-x-generic-symbolic"@,
        icon_for_extension("vue"@) == "text-x-generic-symbolic"@,
        icon_for_extension("svelte"@) == "text-x-generic-symbolic"@,
        icon_for_extension("css"@) == "text-x-generic-symbolic"@,
        icon_for_extension("scss"@) == "text-x-generic-symbolic"@,
        icon_for_extension("sass"@) == "text-x-generic-symbolic"@,
        icon_for_extension("less"@) == "text-x-generic-symbolic"@,
        icon_for_extension("styl"@) == "text-x-generic-symbolic"@,
        icon_for_extension("json"@) == "text-x-generic-symbolic"@,
        icon_for_extension("yaml"@) == "text-x-generic-symbolic"@,
        icon_for_extension("yml"@) == "text-x-generic-symbolic"@,
        icon_for_extension("xml"@) == "text-x-generic-symbolic"@,
        icon_for_extension("toml"@) == "text-x-generic-symbolic"@,
        icon_for_extension("ini"@) == "text-x-generic-symbolic"@,
        icon_for_extension("cfg"@) == "text-x-generic-symbolic"@,
        icon_for_extension("conf"@) == "text-x-generic-symbolic"@,
        icon_for_extension("env"@) == "text-x-generic-symbolic"@,
        icon_for_extension("properties"@) == "text-x-generic-symbolic"@,
        icon_for_extension("plist"@) == "text-x-generic-symbolic"@,
        icon_for_extension("reg"@) == "text-x-generic-symbolic"@,
        icon_for_extension("sql"@) == "text-x-generic-symbolic"@,
        icon_for_extension("graphql"@) == "text-x-generic-symbolic"@,
        icon_for_extension("proto"@) == "text-x-generic-symbolic"@,
        icon_for_extension("ts"@) == "text-x-generic-symbolic"@,
{
    lemma_icons_image();
    lemma_icons_audio();
    lemma_icons_video();
    lemma_icons_document();
    lemma_icons_spreadsheet();
    lemma_icons_presentation();
    lemma_icons_drawing();
    lemma_icons_archive();
    lemma_icons_font();
    lemma_icons_executable();
    lemma_icons_library();
    lemma_icons_disk_image();
    lemma_icons_certificate();
    lemma_icons_addon();
    lemma_icons_firmware();
    lemma_icons_feed();
    lemma_icons_contact();
    lemma_icons_calendar();
    lemma_icons_code_1();
    lemma_icons_code_2();
    lemma_icons_code_3();
    lemma_icons_code_4();
    lemma_icons_code_5();
    lemma_icons_code_6();
    lemma_icons_code_7();
    lemma_icons_code_8();
}

/// The symbolic icon for a lowercase file extension.
pub fn icon_for_ext(e: &str) -> (icon: &'static str)
    ensures
        icon@ == icon_for_extension(e@),
{
    if image_ext(e) {
        "image-x-generic-symbolic"
    } else if audio_ext(e) {
        "audio-x-generic-symbolic"
    } else if video_ext(e) {
        "video-x-generic-symbolic"
    } else if document_ext(e) {
        "x-office-document-symbolic"
    } else if spreadsheet_ext(e) {
        "x-office-spreadsheet-symbolic"
    } else if presentation_ext(e) {
        "x-office-presentation-symbolic"
    } else if drawing_ext(e) {
        "x-office-drawing-symbolic"
    } else if archive_ext(e) {
        "package-x-generic-symbolic"
    } else if font_ext(e) {
        "font-x-generic-symbolic"
    } else if executable_ext(e) {
        "application-x-executable-symbolic"
    } else if library_ext(e) {
        "application-x-sharedlib-symbolic"
    } else if disk_image_ext(e) {
        "media-optical-symbolic"
    } else if certificate_ext(e) {
        "application-certificate-symbolic"
    } else if addon_ext(e) {
        "application-x-addon-symbolic"
    } else if firmware_ext(e) {
        "application-x-firmware-symbolic"
    } else if feed_ext(e) {
        "application-rss+xml-symbolic"
    } else if contact_ext(e) {
        "x-office-address-book-symbolic"
    } else if calendar_ext(e) {
        "x-office-calendar-symbolic"
    } else {
        "text-x-generic-symbolic"
    }
}

/// The symbolic icon for a file, chosen by its extension (case ignored).
pub fn icon_for_filename(name: &str) -> (icon: &'static str)
    ensures
        icon@ == icon_for_extension(file_extension(name@)),
{
    let e = extension_of(name);
    icon_for_ext(e.as_str())
}

/// The icon of a listing row: a folder for a directory, otherwise the
/// icon for the file's extension.
pub fn file_icon(name: &str, is_dir: bool) -> (icon: &'static str)
    ensures
        icon@ == (if is_dir {
            "folder-symbolic"@
        } else {
            icon_for_extension(file_extension(name@))
        }),
{
    if is_dir {
        "folder-symbolic"
    } else {
        icon_for_filename(name)
    }
}

} // verus!

//! Icons: for the window, for the Linux desktop and for the Windows
//! executable, and the entry in the desktop's menu.
use crate::parts::{named, named_cmd, Cmd, CmdModel};
use crate::text::{
    contains, decimal, end_lines, ended, framed, is_line, law_lines_are_read_back,
    lemma_framed_is_line, lemma_line_is_framed, lines, lines_of, occurs, same, show, words,
};
use vstd::prelude::*;

verus! {

// ── Pictures ─────────────────────────────────────────────────────────────

/// A picture with four bytes, red, green, blue and opacity, for each point.
#[derive(Debug, Clone)]
pub struct Picture {
    pub width: u32,
    pub height: u32,
    pub rgba: Vec<u8>,
}

/// How many bytes a picture has.
pub open spec fn area(width: u32, height: u32) -> int {
    4 * (width as int) * (height as int)
}

impl Picture {
    /// There are as many bytes as the size says.
    pub open spec fn wf(self) -> bool {
        self.rgba@.len() == area(self.width, self.height)
    }
}

/// What `image::load_from_memory` makes of the bytes of an image file,
/// turned to eight bits a channel by `to_rgba8`: its width, its height and
/// its points. Nothing, where the bytes are no image that it can read.
pub uninterp spec fn rgba_of(bytes: Seq<u8>) -> Option<(u32, u32, Seq<u8>)>;

/// `image::load_from_memory`, with the result turned to eight bits a channel
/// by `DynamicImage::to_rgba8`. Claimed: the result depends on the bytes
/// alone, and a picture has exactly four bytes a point. What the points of a
/// given file are is not said.
#[verifier::external_body]
fn load_rgba(bytes: &[u8]) -> (p: Option<(u32, u32, Vec<u8>)>)
    ensures
        match p {
            Some((w, h, rgba)) => rgba_of(bytes@) == Some((w, h, rgba@)) && rgba@.len() == area(
                w,
                h,
            ),
            None => rgba_of(bytes@) is None,
        },
{
    match image::load_from_memory(bytes) {
        Ok(img) => {
            let rgba = img.to_rgba8();
            let (w, h) = rgba.dimensions();
            Some((w, h, rgba.into_raw()))
        },
        Err(_) => None,
    }
}

/// The largest side of an icon.
pub const LARGEST_ICON: u32 = 512;

/// Can a picture of this size be scaled to a square icon? It needs points,
/// and room for the points while they are numbers of four bytes a channel.
pub open spec fn scalable(width: u32, height: u32, size: u32) -> bool {
    &&& 0 < width
    &&& 0 < height
    &&& 0 < size <= LARGEST_ICON
    &&& 4 * area(width, size) <= isize::MAX
}

/// Are these the bytes of a picture that can be scaled to a square icon?
pub open spec fn readable(file: Seq<u8>, size: u32) -> bool {
    rgba_of(file) matches Some((width, height, _)) && scalable(width, height, size)
}

/// Are these the bytes of a picture that is a square of this size?
pub open spec fn has_size(file: Seq<u8>, size: u32) -> bool {
    rgba_of(file) matches Some((width, height, rgba)) && width == size && height == size
        && rgba.len() == area(size, size)
}

/// Do the bytes `icon` show a picture of this size, and the same picture as
/// `file`, where that has the size already?
pub open spec fn shows(file: Seq<u8>, size: u32, icon: Seq<u8>) -> bool {
    &&& has_size(icon, size)
    &&& has_size(file, size) ==> rgba_of(icon) == rgba_of(file)
}

/// `DynamicImage::resize_exact` with the Lanczos filter, on the picture that
/// `image::load_from_memory` reads, which keeps its own colour type; the
/// result is written as a PNG file by `DynamicImage::write_to`. Claimed: the
/// file can be read again and has the new size, and the points of a picture
/// that has this size already come through, as PNG files lose nothing. The
/// points of a picture that is scaled come from sines of `f32` numbers,
/// which differ between machines, so they are not said and have no name. It
/// panics where its buffers would be larger than a vector can be: such sizes
/// are left out, and so are sides of 0. For an icon of this size every weight
/// is a number, however long a side of the picture is: a side that is longer
/// than the icon's is only ever made shorter, and the points round the middle
/// of what is gathered outweigh the rest.
#[verifier::external_body]
fn scale_png(file: &[u8], size: u32) -> (icon: Vec<u8>)
    requires
        readable(file@, size),
    ensures
        shows(file@, size, icon@),
{
    let img = image::load_from_memory(file).unwrap();
    let img = img.resize_exact(size, size, image::imageops::FilterType::Lanczos3);
    let mut icon = std::io::Cursor::new(Vec::new());
    img.write_to(&mut icon, image::ImageOutputFormat::Png).unwrap();
    icon.into_inner()
}

/// Is this the size of a square icon?
pub open spec fn icon_sized(width: u32, height: u32) -> bool {
    0 < width <= LARGEST_ICON && width == height
}

/// The PNG file that `PngEncoder::write_image` writes for points of eight
/// bits a channel, in a width and a height. Nothing, where it refuses them.
pub uninterp spec fn png_of(rgba: Seq<u8>, width: u32, height: u32) -> Option<Seq<u8>>;

/// `image::codecs::png::PngEncoder::write_image` for eight bits a channel.
/// Claimed: the file depends on the points and the size alone, and a file
/// for a square of an icon's size is written and reads back as the points.
/// It panics where the number of bytes does not fit the size. What else the
/// file holds is not said.
#[verifier::external_body]
fn encode_png(rgba: &Vec<u8>, width: u32, height: u32) -> (file: Option<Vec<u8>>)
    requires
        rgba@.len() == area(width, height),
    ensures
        match file {
            Some(bytes) => png_of(rgba@, width, height) == Some(bytes@) && (icon_sized(width, height)
                ==> rgba_of(bytes@) == Some((width, height, rgba@))),
            None => png_of(rgba@, width, height) is None && !icon_sized(width, height),
        },
{
    let mut file = Vec::new();
    let encoder = image::codecs::png::PngEncoder::new(&mut file);
    match image::ImageEncoder::write_image(encoder, rgba, width, height, image::ColorType::Rgba8) {
        Ok(()) => Some(file),
        Err(_) => None,
    }
}

/// Reads an image file.
pub fn decode_picture(bytes: &[u8]) -> (p: Option<Picture>)
    ensures
        match p {
            Some(q) => rgba_of(bytes@) == Some((q.width, q.height, q.rgba@)) && q.wf(),
            None => rgba_of(bytes@) is None,
        },
{
    match load_rgba(bytes) {
        Some((width, height, rgba)) => Some(Picture { width, height, rgba }),
        None => None,
    }
}

fn can_scale(width: u32, height: u32, size: u32) -> (b: bool)
    ensures
        b == scalable(width, height, size),
{
    if width == 0 || height == 0 || size == 0 || size > LARGEST_ICON {
        return false;
    }
    assert(width * size <= 4294967295 * 512) by (nonlinear_arith)
        requires
            width <= 4294967295,
            size <= 512,
    ;
    let wide: u64 = (width as u64) * (size as u64);
    assert(4 * area(width, size) == 16 * wide) by (nonlinear_arith)
        requires
            wide == (width as int) * (size as int),
    ;
    16 * wide <= isize::MAX as u64
}

fn can_read(file: &[u8], size: u32) -> (b: bool)
    ensures
        b == readable(file@, size),
{
    match load_rgba(file) {
        Some((width, height, _)) => can_scale(width, height, size),
        None => false,
    }
}

// ── The desktop entry ────────────────────────────────────────────────────

/// The sizes of the icons on a Linux desktop.
pub open spec fn desktop_sizes() -> Seq<u32> {
    seq![512, 256, 128, 64, 48, 32, 16]
}

/// The directory for icons of a size.
pub open spec fn icon_dir(home: Seq<char>, size: u32) -> Seq<char> {
    home + "/.local/share/icons/hicolor/"@ + decimal(size as nat) + "x"@ + decimal(size as nat)
        + "/apps"@
}

/// One icon file: its directory, its path and its bytes.
#[derive(Debug, Clone)]
pub struct IconFile {
    pub dir: String,
    pub path: String,
    pub bytes: Vec<u8>,
}

/// Is `icon` the icon of this size, made from the picture `file`?
pub open spec fn is_icon_file(home: Seq<char>, file: Seq<u8>, size: u32, icon: IconFile) -> bool {
    &&& icon.dir@ == icon_dir(home, size)
    &&& icon.path@ == icon_dir(home, size) + "/sapphire-launcher.png"@
    &&& shows(file, size, icon.bytes@)
}

fn icon_file(home: &str, file: &[u8], size: u32) -> (icon: IconFile)
    requires
        readable(file@, size),
    ensures
        is_icon_file(home@, file@, size, icon),
{
    let n = show(size as u64);
    let dir = home.to_string().concat("/.local/share/icons/hicolor/").concat(n.as_str()).concat(
        "x",
    ).concat(n.as_str()).concat("/apps");
    let path = dir.clone().concat("/sapphire-launcher.png");
    IconFile { dir, path, bytes: scale_png(file, size) }
}

/// A picture that can be scaled to the largest icon can be scaled to any.
proof fn lemma_readable(file: Seq<u8>, size: u32)
    requires
        readable(file, LARGEST_ICON),
        0 < size <= LARGEST_ICON,
    ensures
        readable(file, size),
{
    let (width, _, _) = rgba_of(file)->0;
    assert(4 * (width as int) * (size as int) <= 4 * (width as int) * 512) by (nonlinear_arith)
        requires
            size <= 512,
            width >= 0,
    ;
}

/// Makes the icons for a Linux desktop from a picture: none, if it is no
/// picture that can be scaled.
pub fn desktop_icons(home: &str, file: &[u8]) -> (icons: Vec<IconFile>)
    ensures
        icons@.len() == if readable(file@, LARGEST_ICON) {
            desktop_sizes().len()
        } else {
            0
        },
        forall|i: int|
            0 <= i < icons@.len() ==> is_icon_file(
                home@,
                file@,
                desktop_sizes()[i],
                #[trigger] icons@[i],
            ),
{
    let sizes: [u32; 7] = [512, 256, 128, 64, 48, 32, 16];
    let mut icons: Vec<IconFile> = Vec::new();
    if !can_read(file, LARGEST_ICON) {
        return icons;
    }
    for i in 0..7usize
        invariant
            readable(file@, LARGEST_ICON),
            sizes@ == desktop_sizes(),
            icons@.len() == i,
            forall|j: int|
                0 <= j < i ==> is_icon_file(
                    home@,
                    file@,
                    desktop_sizes()[j],
                    #[trigger] icons@[j],
                ),
    {
        proof {
            lemma_readable(file@, sizes@[i as int]);
        }
        icons.push(icon_file(home, file, sizes[i]));
    }
    icons
}

/// The file of the desktop entry.
pub fn desktop_path(home: &str) -> (s: String)
    ensures
        s@ == home@ + "/.local/share/applications/sapphire-launcher.desktop"@,
{
    home.to_string().concat("/.local/share/applications/sapphire-launcher.desktop")
}

/// The directory of the desktop entry.
pub fn desktop_dir(home: &str) -> (s: String)
    ensures
        s@ == home@ + "/.local/share/applications"@,
{
    home.to_string().concat("/.local/share/applications")
}

/// The command that has the desktop look at the icons again.
pub open spec fn refresh_icons(home: Seq<char>) -> CmdModel {
    named(
        "gtk-update-icon-cache"@,
        seq!["-f"@, "-t"@, home + "/.local/share/icons/hicolor"@],
    )
}

/// Makes the command that has the desktop look at the icons again.
pub fn refresh_command(home: &str) -> (c: Cmd)
    ensures
        c.deep_view() == refresh_icons(home@),
{
    let dir = home.to_string().concat("/.local/share/icons/hicolor");
    named_cmd("gtk-update-icon-cache", &["-f", "-t", dir.as_str()])
}

/// The lines of the desktop entry for the program at `exe`.
pub open spec fn entry_lines(exe: Seq<char>) -> Seq<Seq<char>> {
    seq![
        "[Desktop Entry]"@,
        "Type=Application"@,
        "Name=Sapphire Launcher"@,
        "Comment=Install and manage Sapphire"@,
        "Exec="@ + exe,
        "Icon=sapphire-launcher"@,
        "Terminal=false"@,
        "Categories=Utility;"@,
        "StartupWMClass=sapphire-launcher"@,
    ]
}

/// The text of the desktop entry for the program at `exe`.
pub open spec fn desktop_entry(exe: Seq<char>) -> Seq<char> {
    ended(entry_lines(exe))
}

/// Writes the text of the desktop entry.
pub fn desktop_text(exe: &str) -> (s: String)
    ensures
        s@ == desktop_entry(exe@),
{
    let line = "Exec=".to_string().concat(exe);
    let list = words(
        &[
            "[Desktop Entry]",
            "Type=Application",
            "Name=Sapphire Launcher",
            "Comment=Install and manage Sapphire",
            line.as_str(),
            "Icon=sapphire-launcher",
            "Terminal=false",
            "Categories=Utility;",
            "StartupWMClass=sapphire-launcher",
        ],
    );
    assert(list.deep_view() =~= entry_lines(exe@));
    end_lines(&list)
}

/// Does a desktop entry that is there belong to the program at `exe`? It has
/// to name exactly that program, either on one of its lines, or between a
/// line feed and the next where the path itself holds line feeds.
pub open spec fn entry_is_for(existing: Seq<char>, exe: Seq<char>) -> bool {
    ||| lines(existing).contains("Exec="@ + exe)
    ||| occurs(existing, framed("Exec="@ + exe))
}

/// Finds out whether the program at `exe` is registered already.
pub fn is_registered(existing: &str, exe: &str) -> (b: bool)
    ensures
        b == entry_is_for(existing@, exe@),
{
    let line = "Exec=".to_string().concat(exe);
    let list = lines_of(existing);
    let ghost all = list.deep_view();
    for i in 0..list.len()
        invariant
            all == list.deep_view(),
            all == lines(existing@),
            line@ == "Exec="@ + exe@,
            forall|j: int| 0 <= j < i ==> #[trigger] all[j] != line@,
    {
        assert(all[i as int] == list@[i as int]@);
        if same(list[i].as_str(), line.as_str()) {
            assert(all.contains(line@));
            return true;
        }
    }
    let frame = "\n".to_string().concat(line.as_str()).concat("\n");
    proof {
        reveal_strlit("\n");
        assert(frame@ =~= framed(line@));
    }
    contains(existing, frame.as_str())
}

/// Registering is done once: the entry that is written for a program, wherever
/// it stands, tells that program that nothing is left to do.
pub proof fn law_registering_is_done_once(exe: Seq<char>)
    ensures
        entry_is_for(desktop_entry(exe), exe),
{
    let list = entry_lines(exe);
    assert(list[4] == "Exec="@ + exe);
    lemma_line_is_framed(list, 4);
}

/// Registering is done anew for another program: the entry that is written
/// for `other` tells `exe` that nothing is left to do only where they are the
/// same program. Paths with a line feed in them are left out, as one can hold
/// the line of another, and so is a carriage return at the end of `other`,
/// which is no part of a line.
pub proof fn law_registering_is_done_anew(other: Seq<char>, exe: Seq<char>)
    requires
        is_line(other),
        !exe.contains('\n'),
    ensures
        entry_is_for(desktop_entry(other), exe) <==> other == exe,
{
    reveal_strlit("Exec=");
    reveal_strlit("[Desktop Entry]");
    reveal_strlit("Type=Application");
    reveal_strlit("Name=Sapphire Launcher");
    reveal_strlit("Comment=Install and manage Sapphire");
    reveal_strlit("Icon=sapphire-launcher");
    reveal_strlit("Terminal=false");
    reveal_strlit("Categories=Utility;");
    reveal_strlit("StartupWMClass=sapphire-launcher");
    let list = entry_lines(other);
    let line = "Exec="@ + exe;
    let own = "Exec="@ + other;
    assert(is_line(own)) by {
        assert forall|k: int| 0 <= k < own.len() implies own[k] != '\n' by {
            if k >= 5 {
                assert(other.contains(other[k - 5]));
            }
        }
        if other.len() > 0 {
            assert(own.last() == other.last());
        }
    }
    assert forall|k: int| 0 <= k < line.len() implies line[k] != '\n' by {
        if k >= 5 {
            assert(exe.contains(exe[k - 5]));
        }
    }
    assert forall|i: int| 0 <= i < list.len() implies is_line(#[trigger] list[i]) by {
        if i != 4 {
            assert(list[i].len() > 0);
        }
    }
    law_lines_are_read_back(list);
    assert(list[4] == own);
    if own == line {
        assert(own.skip(5) =~= other);
        assert(line.skip(5) =~= exe);
        assert(list.contains(line));
    }
    if occurs(ended(list), framed(line)) {
        lemma_framed_is_line(list, line);
    }
    if list.contains(line) {
        let i = choose|i: int| 0 <= i < list.len() && list[i] == line;
        assert(line[0] == 'E' && line[1] == 'x');
        assert(i == 4);
    }
}

// ── The icon of the Windows executable ───────────────────────────────────

/// A number of two bytes, the low one first.
pub open spec fn le16(n: nat) -> Seq<u8> {
    seq![(n % 256) as u8, (n / 256 % 256) as u8]
}

/// A number of four bytes, the low ones first.
pub open spec fn le32(n: nat) -> Seq<u8> {
    seq![
        (n % 256) as u8,
        (n / 256 % 256) as u8,
        (n / 65536 % 256) as u8,
        (n / 16777216 % 256) as u8,
    ]
}

/// The side of an image in a directory entry, where 0 stands for 256 and
/// more.
pub open spec fn side(size: u32) -> u8 {
    if size >= 256 {
        0
    } else {
        size as u8
    }
}

/// The directory entry of an image: its side, its length and where it is.
pub open spec fn ico_entry(size: u32, len: nat, offset: nat) -> Seq<u8> {
    seq![side(size), side(size), 0u8, 0u8] + le16(1) + le16(32) + le32(len) + le32(offset)
}

/// The directory of images that are stored one after the other from
/// `offset` on.
pub open spec fn ico_directory(images: Seq<(u32, Seq<u8>)>, offset: nat) -> Seq<u8>
    decreases images.len(),
{
    if images.len() == 0 {
        Seq::empty()
    } else {
        ico_directory(images.drop_last(), offset) + ico_entry(
            images.last().0,
            images.last().1.len(),
            offset + ico_data(images.drop_last()).len(),
        )
    }
}

/// Images, one after the other.
pub open spec fn ico_data(images: Seq<(u32, Seq<u8>)>) -> Seq<u8>
    decreases images.len(),
{
    if images.len() == 0 {
        Seq::empty()
    } else {
        ico_data(images.drop_last()) + images.last().1
    }
}

/// Where the images start in an icon file.
pub open spec fn ico_start(count: nat) -> nat {
    6 + 16 * count
}

/// An icon file with these images.
pub open spec fn ico_content(images: Seq<(u32, Seq<u8>)>) -> Seq<u8> {
    le16(0) + le16(1) + le16(images.len()) + ico_directory(images, ico_start(images.len()))
        + ico_data(images)
}

fn put16(out: &mut Vec<u8>, n: u16)
    ensures
        final(out)@ == old(out)@ + le16(n as nat),
{
    out.push((n % 256) as u8);
    out.push((n / 256 % 256) as u8);
    assert(out@ =~= old(out)@ + le16(n as nat));
}

fn put32(out: &mut Vec<u8>, n: u32)
    ensures
        final(out)@ == old(out)@ + le32(n as nat),
{
    out.push((n % 256) as u8);
    out.push((n / 256 % 256) as u8);
    out.push((n / 65536 % 256) as u8);
    out.push((n / 16777216 % 256) as u8);
    assert(out@ =~= old(out)@ + le32(n as nat));
}

fn put_entry(out: &mut Vec<u8>, size: u32, len: u32, offset: u32)
    ensures
        final(out)@ == old(out)@ + ico_entry(size, len as nat, offset as nat),
{
    let s: u8 = if size >= 256 {
        0
    } else {
        size as u8
    };
    out.push(s);
    out.push(s);
    out.push(0);
    out.push(0);
    put16(out, 1);
    put16(out, 32);
    put32(out, len);
    put32(out, offset);
    assert(out@ =~= old(out)@ + ico_entry(size, len as nat, offset as nat));
}

proof fn lemma_data_grows(images: Seq<(u32, Seq<u8>)>, i: int)
    requires
        0 <= i <= images.len(),
    ensures
        ico_data(images.take(i)).len() <= ico_data(images).len(),
    decreases images.len(),
{
    if i == images.len() {
        assert(images.take(i) =~= images);
    } else {
        lemma_data_grows(images.drop_last(), i);
        assert(images.drop_last().take(i) =~= images.take(i));
    }
}

/// Puts images together to an icon file: each is a PNG file with the size
/// of its side.
pub fn ico_file(images: &Vec<(u32, Vec<u8>)>) -> (out: Vec<u8>)
    requires
        images@.len() <= u16::MAX,
        ico_start(images@.len()) + ico_data(images.deep_view()).len() <= u32::MAX,
    ensures
        out@ == ico_content(images.deep_view()),
{
    let ghost all = images.deep_view();
    let n: usize = images.len();
    let mut out: Vec<u8> = Vec::new();
    put16(&mut out, 0);
    put16(&mut out, 1);
    put16(&mut out, n as u16);
    let ghost head = le16(0) + le16(1) + le16(all.len());
    assert(out@ =~= head);
    let start: u32 = 6 + 16 * (n as u32);
    let mut offset: u32 = start;
    assert(all.take(0) =~= Seq::empty());
    for i in 0..n
        invariant
            n == images@.len(),
            n <= u16::MAX,
            all == images.deep_view(),
            start == ico_start(all.len()),
            start + ico_data(all).len() <= u32::MAX,
            offset == start + ico_data(all.take(i as int)).len(),
            out@ == head + ico_directory(all.take(i as int), start as nat),
    {
        let ghost image = all[i as int];
        assert(all.take(i + 1).drop_last() =~= all.take(i as int));
        assert(all.take(i + 1).last() == image);
        assert(images@[i as int].1.deep_view() =~= images@[i as int].1@);
        assert(image == (images@[i as int].0, images@[i as int].1@));
        proof {
            lemma_data_grows(all, i + 1);
        }
        let len: u32 = images[i].1.len() as u32;
        put_entry(&mut out, images[i].0, len, offset);
        assert(out@ =~= head + ico_directory(all.take(i + 1), start as nat));
        offset = offset + len;
    }
    assert(all.take(n as int) =~= all);
    let ghost front = out@;
    for i in 0..n
        invariant
            n == images@.len(),
            all == images.deep_view(),
            out@ == front + ico_data(all.take(i as int)),
    {
        assert(all.take(i + 1).drop_last() =~= all.take(i as int));
        assert(images@[i as int].1.deep_view() =~= images@[i as int].1@);
        assert(all.take(i + 1).last().1 == images@[i as int].1@);
        let mut bytes = images[i].1.clone();
        out.append(&mut bytes);
        assert(out@ =~= front + ico_data(all.take(i + 1)));
    }
    out
}

/// Do images fit into an icon file, where lengths and places have four
/// bytes?
pub fn ico_fits(images: &Vec<(u32, Vec<u8>)>) -> (b: bool)
    ensures
        b == (images@.len() <= u16::MAX && ico_start(images@.len()) + ico_data(
            images.deep_view(),
        ).len() <= u32::MAX),
{
    let ghost all = images.deep_view();
    let n: usize = images.len();
    if n > 65535 {
        return false;
    }
    let mut room: u64 = 0xffff_ffff - (6 + 16 * (n as u64));
    assert(all.take(0) =~= Seq::empty());
    for i in 0..n
        invariant
            n == images@.len(),
            all == images.deep_view(),
            ico_start(all.len()) + ico_data(all.take(i as int)).len() + room == u32::MAX,
    {
        assert(all.take(i + 1).drop_last() =~= all.take(i as int));
        assert(images@[i as int].1.deep_view() =~= images@[i as int].1@);
        assert(all.take(i + 1).last().1 == images@[i as int].1@);
        proof {
            lemma_data_grows(all, i + 1);
        }
        let len: u64 = images[i].1.len() as u64;
        if len > room {
            return false;
        }
        room = room - len;
    }
    assert(all.take(n as int) =~= all);
    true
}

/// The sizes of the images in the icon of the executable.
pub open spec fn ico_sizes() -> Seq<u32> {
    seq![256, 48, 32, 16]
}

/// Is `image` the PNG file, with eight bits a channel, of the picture `file`
/// scaled to a square?
pub open spec fn is_ico_image(file: Seq<u8>, size: u32, image: Seq<u8>) -> bool {
    &&& shows(file, size, image)
    &&& rgba_of(image) matches Some((_, _, rgba)) && png_of(rgba, size, size) == Some(image)
}

fn ico_image(file: &[u8], size: u32) -> (image: Option<Vec<u8>>)
    requires
        readable(file@, size),
    ensures
        image matches Some(bytes) && is_ico_image(file@, size, bytes@),
{
    let icon = scale_png(file, size);
    match load_rgba(icon.as_slice()) {
        Some((_, _, rgba)) => encode_png(&rgba, size, size),
        None => None,
    }
}

/// Makes the images for the icon of the executable from a picture: none, if
/// it is no picture that can be scaled.
pub fn ico_images(file: &[u8]) -> (images: Option<Vec<(u32, Vec<u8>)>>)
    ensures
        images is Some <==> readable(file@, LARGEST_ICON),
        images matches Some(list) ==> list@.len() == ico_sizes().len() && forall|i: int|
            0 <= i < list@.len() ==> (#[trigger] list@[i]).0 == ico_sizes()[i] && is_ico_image(
                file@,
                ico_sizes()[i],
                list@[i].1@,
            ),
{
    let sizes: [u32; 4] = [256, 48, 32, 16];
    let mut list: Vec<(u32, Vec<u8>)> = Vec::new();
    if !can_read(file, LARGEST_ICON) {
        return None;
    }
    for i in 0..4usize
        invariant
            readable(file@, LARGEST_ICON),
            sizes@ == ico_sizes(),
            list@.len() == i,
            forall|j: int|
                0 <= j < i ==> (#[trigger] list@[j]).0 == ico_sizes()[j] && is_ico_image(
                    file@,
                    ico_sizes()[j],
                    list@[j].1@,
                ),
    {
        proof {
            lemma_readable(file@, sizes@[i as int]);
        }
        match ico_image(file, sizes[i]) {
            Some(bytes) => {
                list.push((sizes[i], bytes));
            },
            None => {
                return None;
            },
        }
    }
    Some(list)
}

proof fn lemma_directory(images: Seq<(u32, Seq<u8>)>, offset: nat, i: int)
    requires
        0 <= i < images.len(),
    ensures
        ico_directory(images, offset).len() == 16 * images.len(),
        ico_directory(images, offset).subrange(16 * i, 16 * i + 16) == ico_entry(
            images[i].0,
            images[i].1.len(),
            offset + ico_data(images.take(i)).len(),
        ),
    decreases images.len(),
{
    reveal_with_fuel(ico_directory, 2);
    let rest = images.drop_last();
    if rest.len() > 0 {
        lemma_directory(
            rest,
            offset,
            if i < rest.len() {
                i
            } else {
                0
            },
        );
    }
    let whole = ico_directory(images, offset);
    if i < rest.len() {
        assert(rest.take(i) =~= images.take(i));
        assert(whole.subrange(16 * i, 16 * i + 16) =~= ico_directory(rest, offset).subrange(
            16 * i,
            16 * i + 16,
        ));
    } else {
        assert(images.take(i) =~= rest);
        assert(whole.subrange(16 * i, 16 * i + 16) =~= ico_entry(
            images[i].0,
            images[i].1.len(),
            offset + ico_data(rest).len(),
        ));
    }
}

proof fn lemma_data(images: Seq<(u32, Seq<u8>)>, i: int)
    requires
        0 <= i < images.len(),
    ensures
        ({
            let at = ico_data(images.take(i)).len() as int;
            &&& at + images[i].1.len() <= ico_data(images).len()
            &&& ico_data(images).subrange(at, at + images[i].1.len()) == images[i].1
        }),
    decreases images.len(),
{
    let rest = images.drop_last();
    let at = ico_data(images.take(i)).len() as int;
    if i < rest.len() {
        lemma_data(rest, i);
        assert(rest.take(i) =~= images.take(i));
        assert(ico_data(images).subrange(at, at + images[i].1.len()) =~= ico_data(rest).subrange(
            at,
            at + images[i].1.len(),
        ));
    } else {
        assert(images.take(i) =~= rest);
        assert(ico_data(images).subrange(at, at + images[i].1.len()) =~= images[i].1);
    }
}

/// An icon file is sound: the entry of each image gives its side, its length
/// and a place, and at that place the image is found, whole.
pub proof fn law_icon_entries_point_at_images(images: Seq<(u32, Seq<u8>)>, i: int)
    requires
        0 <= i < images.len(),
    ensures
        ({
            let file = ico_content(images);
            let at = ico_start(images.len()) + ico_data(images.take(i)).len();
            let len = images[i].1.len();
            &&& file.len() == ico_start(images.len()) + ico_data(images).len()
            &&& file.subrange(6 + 16 * i, 22 + 16 * i) == ico_entry(images[i].0, len, at)
            &&& at + len <= file.len()
            &&& file.subrange(at as int, (at + len) as int) == images[i].1
        }),
{
    let start = ico_start(images.len());
    let at = start + ico_data(images.take(i)).len();
    let len = images[i].1.len();
    let file = ico_content(images);
    lemma_directory(images, start, i);
    lemma_data(images, i);
    assert(file.subrange(6 + 16 * i, 22 + 16 * i) =~= ico_directory(images, start).subrange(
        16 * i,
        16 * i + 16,
    ));
    assert(file.subrange(at as int, (at + len) as int) =~= ico_data(images).subrange(
        at - start,
        at - start + len,
    ));
}

/// The number that four bytes stand for, the low ones first.
pub open spec fn value32(b: Seq<u8>) -> nat {
    (b[0] + 256 * b[1] + 65536 * b[2] + 16777216 * b[3]) as nat
}

/// Four bytes are enough for every length and place that fits in them.
pub proof fn law_four_bytes_keep_a_number(n: nat)
    requires
        n <= u32::MAX,
    ensures
        value32(le32(n)) == n,
{
}

} // verus!

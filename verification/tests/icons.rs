use image::{DynamicImage, ImageOutputFormat, LumaA, Rgb, Rgba, RgbaImage};
use sapphire_launcher::icon::{
    decode_picture, desktop_dir, desktop_icons, desktop_path, desktop_text, ico_file, ico_fits,
    ico_images, is_registered, refresh_command,
};
use std::io::Cursor;

fn png(image: DynamicImage) -> Vec<u8> {
    let mut out = Cursor::new(Vec::new());
    image.write_to(&mut out, ImageOutputFormat::Png).unwrap();
    out.into_inner()
}

fn picture(width: u32, height: u32) -> RgbaImage {
    RgbaImage::from_fn(width, height, |x, y| {
        Rgba([(7 * x + y) as u8, (x + 11 * y) as u8, (3 * x + 5 * y) as u8, (x * y) as u8])
    })
}

fn number(b: &[u8]) -> usize {
    b[0] as usize + 256 * b[1] as usize + 65536 * b[2] as usize + 16777216 * b[3] as usize
}

#[test]
fn a_picture_is_read_from_its_file() {
    let p = picture(20, 10);
    let q = decode_picture(&png(DynamicImage::ImageRgba8(p.clone()))).unwrap();
    assert_eq!((q.width, q.height), (20, 10));
    assert_eq!(q.rgba, p.into_raw());
    assert!(decode_picture(b"no picture").is_none());
}

#[test]
fn icons_are_made_for_the_desktop() {
    let p = picture(64, 64);
    let icons = desktop_icons("/home/ada", &png(DynamicImage::ImageRgba8(p.clone())));
    assert_eq!(icons.len(), 7);
    assert_eq!(icons[0].dir, "/home/ada/.local/share/icons/hicolor/512x512/apps");
    assert_eq!(
        icons[6].path,
        "/home/ada/.local/share/icons/hicolor/16x16/apps/sapphire-launcher.png"
    );
    let read: Vec<_> = icons.iter().map(|f| decode_picture(&f.bytes).unwrap()).collect();
    assert_eq!(
        read.iter().map(|q| (q.width, q.height)).collect::<Vec<_>>(),
        [512, 256, 128, 64, 48, 32, 16].map(|s| (s, s)).to_vec()
    );
    assert_eq!(read[3].rgba, p.into_raw());
    assert_ne!(read[6].rgba, read[3].rgba[..read[6].rgba.len()].to_vec());
    assert!(desktop_icons("/home/ada", b"no picture").is_empty());
}

#[test]
fn icons_keep_the_colour_type_of_the_picture() {
    let plain = image::RgbImage::from_pixel(30, 20, Rgb([200, 100, 50]));
    let icons = desktop_icons("/h", &png(DynamicImage::ImageRgb8(plain)));
    for icon in &icons {
        let read = image::load_from_memory(&icon.bytes).unwrap();
        assert_eq!(read.color(), image::ColorType::Rgb8);
        assert_eq!(read.to_rgb8().get_pixel(3, 3), &Rgb([200, 100, 50]));
    }
    let deep = image::ImageBuffer::from_pixel(32, 32, LumaA([40000u16, 60000]));
    let icons = desktop_icons("/h", &png(DynamicImage::ImageLumaA16(deep)));
    let read = image::load_from_memory(&icons[5].bytes).unwrap();
    assert_eq!(read.color(), image::ColorType::La16);
    assert_eq!(read.to_luma_alpha16().get_pixel(9, 9), &LumaA([40000, 60000]));
}

#[test]
fn a_very_long_picture_becomes_icons_too() {
    let long = image::GrayImage::from_pixel(1, 1_100_000, image::Luma([200]));
    let icons = desktop_icons("/h", &png(DynamicImage::ImageLuma8(long)));
    assert_eq!(icons.len(), 7);
    let read = image::load_from_memory(&icons[6].bytes).unwrap().to_luma8();
    assert_eq!((read.width(), read.height()), (16, 16));
    assert!(read.pixels().all(|p| p.0[0].abs_diff(200) <= 1));
}

#[test]
fn an_icon_file_points_at_its_images() {
    let file = png(DynamicImage::ImageRgba8(picture(48, 48)));
    let images = ico_images(&file).unwrap();
    assert_eq!(images.iter().map(|i| i.0).collect::<Vec<_>>(), vec![256, 48, 32, 16]);
    for (side, image) in &images {
        let read = image::load_from_memory(image).unwrap();
        assert_eq!((read.width(), read.height()), (*side, *side));
        assert_eq!(read.color(), image::ColorType::Rgba8);
    }
    assert_eq!(decode_picture(&images[1].1).unwrap().rgba, picture(48, 48).into_raw());
    assert!(ico_images(b"no picture").is_none());
    assert!(ico_fits(&images));
    let file = ico_file(&images);
    assert_eq!(&file[..6], &[0, 0, 1, 0, 4, 0]);
    for (i, (side, png)) in images.iter().enumerate() {
        let entry = &file[6 + 16 * i..22 + 16 * i];
        assert_eq!(entry[0] as u32, side % 256);
        assert_eq!(&entry[2..8], &[0, 0, 1, 0, 32, 0]);
        let (len, at) = (number(&entry[8..12]), number(&entry[12..16]));
        assert_eq!(&file[at..at + len], &png[..]);
    }
    assert_eq!(file.len(), 6 + 16 * 4 + images.iter().map(|i| i.1.len()).sum::<usize>());
}

#[test]
fn the_desktop_entry_is_written_once() {
    let text = desktop_text("/opt/app");
    assert_eq!(
        text,
        "[Desktop Entry]\nType=Application\nName=Sapphire Launcher\nComment=Install and manage Sapphire\nExec=/opt/app\nIcon=sapphire-launcher\nTerminal=false\nCategories=Utility;\nStartupWMClass=sapphire-launcher\n"
    );
    assert!(is_registered(&text, "/opt/app"));
    assert!(!is_registered(&text, "/opt/ap"));
    assert!(!is_registered(&desktop_text("/opt/app2"), "/opt/app"));
    assert!(!is_registered("", "/opt/app"));
    assert!(is_registered("Exec=/opt/app\r\nTerminal=false", "/opt/app"));
    assert!(is_registered("Type=Application\nExec=/opt/app", "/opt/app"));
    for odd in ["/opt/a\nb", "/opt/a\r", "/opt/a\n", ""] {
        assert!(is_registered(&desktop_text(odd), odd));
        assert!(!is_registered(&text, odd));
    }
    assert_eq!(desktop_dir("/h"), "/h/.local/share/applications");
    assert_eq!(desktop_path("/h"), "/h/.local/share/applications/sapphire-launcher.desktop");
}

#[test]
fn the_desktop_looks_at_the_icons_again() {
    let c = refresh_command("/h");
    assert!(format!("{:?}", c.program).contains("gtk-update-icon-cache"));
    assert_eq!(c.args, vec!["-f", "-t", "/h/.local/share/icons/hicolor"]);
}

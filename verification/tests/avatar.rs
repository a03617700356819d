use hypr_overlay_wl::avatar::{avatar_base_url, avatar_event, avatar_loaded, avatar_url, flip_rows};
use hypr_overlay_wl::discord::{DiscordEvent, UserId};

#[test]
fn avatar_base_url_default() {
    assert_eq!(avatar_base_url(None), "https://cdn.discordapp.com/avatars");
}

#[test]
fn avatar_base_url_env_override() {
    assert_eq!(avatar_base_url(Some("http://localhost:8000")), "http://localhost:8000");
}

#[test]
fn avatar_urls() {
    let url = avatar_url("https://cdn.discordapp.com/avatars", &UserId("42".into()), "abc");
    assert_eq!(url, "https://cdn.discordapp.com/avatars/42/abc.png?size=64");
}

#[test]
fn flipping_reverses_rows() {
    // 1 x 3 image: one pixel per row.
    let px = vec![1, 1, 1, 1, 2, 2, 2, 2, 3, 3, 3, 3];
    assert_eq!(flip_rows(&px, 1, 3), vec![3, 3, 3, 3, 2, 2, 2, 2, 1, 1, 1, 1]);
    // Extra bytes beyond the image are dropped.
    let mut longer = px.clone();
    longer.push(9);
    assert_eq!(flip_rows(&longer, 1, 3).len(), 12);
    assert!(flip_rows(&px, 0, 3).is_empty());
}

#[test]
fn decoded_avatar_becomes_event() {
    let e = avatar_loaded(UserId("u".into()), Some((vec![0, 0, 0, 0, 9, 9, 9, 9], 1, 2))).unwrap();
    match e {
        DiscordEvent::AvatarLoaded { user_id, rgba, size } => {
            assert_eq!(user_id, "u");
            assert_eq!(rgba, vec![9, 9, 9, 9, 0, 0, 0, 0]);
            assert_eq!(size, 1);
        }
        _ => panic!("expected AvatarLoaded"),
    }
    assert!(avatar_loaded(UserId("u".into()), Some((vec![], 0, 0))).is_none());
    assert!(avatar_loaded(UserId("u".into()), None).is_none());
}

#[test]
fn png_bytes_decode_flipped() {
    // A 2 x 2 PNG: top row red, bottom row blue.
    let mut img = image::RgbaImage::new(2, 2);
    img.put_pixel(0, 0, image::Rgba([255, 0, 0, 255]));
    img.put_pixel(1, 0, image::Rgba([255, 0, 0, 255]));
    img.put_pixel(0, 1, image::Rgba([0, 0, 255, 255]));
    img.put_pixel(1, 1, image::Rgba([0, 0, 255, 255]));
    let mut bytes = Vec::new();
    image::DynamicImage::ImageRgba8(img)
        .write_to(&mut std::io::Cursor::new(&mut bytes), image::ImageFormat::Png)
        .unwrap();
    match avatar_event(UserId("u".into()), &bytes).unwrap() {
        DiscordEvent::AvatarLoaded { rgba, size, .. } => {
            assert_eq!(size, 2);
            assert_eq!(&rgba[0..4], &[0, 0, 255, 255]);
            assert_eq!(&rgba[8..12], &[255, 0, 0, 255]);
        }
        _ => panic!("expected AvatarLoaded"),
    }
    assert!(avatar_event(UserId("u".into()), b"not an image").is_none());
}

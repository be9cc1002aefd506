use desk_creature::ext_window::candidate_name_allowed;
use desk_creature::ext_window::image_sampled_black;
use desk_creature::ext_window::SELF_WINDOW_TITLE;
use desk_creature::ext_window::ExtWindowInfo;
use desk_creature::hiding::downscale_for_detection;
use desk_creature::hiding::find_hiding_spot_in_window;
use desk_creature::hiding::scan_trial;
use desk_creature::hiding::Facing;
use desk_creature::image_asset::GLTexPixel;
use desk_creature::image_asset::GrayBuf;
use desk_creature::image_asset::ImageAsset;
use desk_creature::util::RectI;
use desk_creature::util::Vec2I;

/// A 64x64 mask, black except for a one-pixel horizontal line across the
/// whole of row 30.
fn line_mask() -> GrayBuf {
    let mut data = vec![0u8; 64 * 64];
    for x in 0..64 {
        data[30 * 64 + x] = 255;
    }
    GrayBuf { width: 64, height: 64, data }
}

fn blank_mask(w: u32, h: u32) -> GrayBuf {
    GrayBuf { width: w, height: h, data: vec![0u8; (w * h) as usize] }
}

fn mk_window(img_w: i32, img_h: i32) -> ExtWindowInfo {
    let data = vec![GLTexPixel { r: 60, g: 60, b: 60, a: 255 }; (img_w * img_h) as usize];
    ExtWindowInfo {
        hwnd: 3,
        window_name: String::from("candidate"),
        img: ImageAsset { data, dims: Vec2I::new(img_w, img_h) },
        rect: RectI { pos: Vec2I::new(0, 0), dim: Vec2I::new(img_w, img_h) },
    }
}

#[test]
fn scan_down_finds_point_on_the_line() {
    let m = line_mask();
    let r = scan_trial(&m, 20, 20, false, false);
    assert_eq!(r, Some((Vec2I::new(20, 30), Facing::Down)));
}

#[test]
fn scan_up_finds_point_on_the_line() {
    let m = line_mask();
    let r = scan_trial(&m, 33, 40, false, true);
    assert_eq!(r, Some((Vec2I::new(33, 30), Facing::Up)));
}

#[test]
fn scan_wraps_around_the_range_end() {
    // starting below the line, the forward walk runs to the bottom margin
    // first and reaches the line only after wrapping to the top
    let m = line_mask();
    let r = scan_trial(&m, 20, 40, false, false);
    assert_eq!(r, Some((Vec2I::new(20, 30), Facing::Down)));
}

#[test]
fn scan_starting_on_the_line_rejects_it() {
    // the start cell itself counts toward the run, so the tracked run start
    // sits on the line and the flank test fails against the line itself
    let m = line_mask();
    assert_eq!(scan_trial(&m, 20, 30, false, false), None);
}

#[test]
fn horizontal_scan_rejects_the_long_line() {
    // along row 30 the line is one giant run, not a thin crossing, and
    // every other row is empty
    let m = line_mask();
    assert_eq!(scan_trial(&m, 20, 30, true, false), None);
    assert_eq!(scan_trial(&m, 20, 29, true, false), None);
    assert_eq!(scan_trial(&m, 20, 20, true, true), None);
}

#[test]
fn scan_requires_flank_clearance() {
    // two vertical lines close on either side of the sampled column leave
    // the thin horizontal line without enough sideways clearance
    let mut m = line_mask();
    for y in 0..64 {
        m.data[y * 64 + 18] = 255;
        m.data[y * 64 + 22] = 255;
    }
    assert_eq!(scan_trial(&m, 20, 20, false, false), None);
}

#[test]
fn finder_locates_the_line_and_rescales() {
    // image 256x256 captured for a 256x256 window rectangle: a mask point
    // maps back to four times its coordinates
    let w = mk_window(256, 256);
    let m = line_mask();
    let r = find_hiding_spot_in_window(&w, &m);
    let (p, f) = r.expect("a full-width line with clear flanks must be found");
    assert!(f.is_vertical());
    assert_eq!(p.y, 120);
    assert!(p.x % 4 == 0);
    assert!(28 <= p.x && p.x <= 224);
}

#[test]
fn finder_rescales_into_the_window_rect_space() {
    // the window rectangle is twice as large as the captured image, so
    // image-space coordinates are doubled on the way out
    let mut w = mk_window(256, 256);
    w.rect.dim = Vec2I::new(512, 512);
    let m = line_mask();
    let (p, f) = find_hiding_spot_in_window(&w, &m).expect("line must be found");
    assert!(f.is_vertical());
    assert_eq!(p.y, 240);
}

#[test]
fn finder_fails_deterministically_on_blank_mask() {
    let w = mk_window(256, 256);
    assert_eq!(find_hiding_spot_in_window(&w, &blank_mask(64, 64)), None);
}

#[test]
fn finder_fails_on_masks_too_small_to_sample() {
    let w = mk_window(56, 96);
    assert_eq!(find_hiding_spot_in_window(&w, &blank_mask(14, 24)), None);
}

#[test]
fn downscale_collapses_to_quarter_luma() {
    // 8x8 image: left half white, right half black
    let mut data = Vec::new();
    for _y in 0..8 {
        for x in 0..8 {
            let v = if x < 4 { 255 } else { 0 };
            data.push(GLTexPixel { r: v, g: v, b: v, a: 255 });
        }
    }
    let img = ImageAsset { data, dims: Vec2I::new(8, 8) };
    let g = downscale_for_detection(&img);
    assert_eq!(g.width, 2);
    assert_eq!(g.height, 2);
    assert_eq!(g.data.len(), 4);
    assert!(g.data[0] > 200 && g.data[2] > 200);
    assert!(g.data[1] < 50 && g.data[3] < 50);
}

#[test]
fn decode_bytes_roundtrips_a_png() {
    let img = image::RgbaImage::from_fn(3, 2, |x, y| {
        image::Rgba([x as u8 * 40, y as u8 * 90, 7, 255])
    });
    let mut bytes = std::io::Cursor::new(Vec::new());
    img.write_to(&mut bytes, image::ImageFormat::Png).unwrap();
    let asset = ImageAsset::decode_bytes(bytes.get_ref()).expect("valid png must decode");
    assert_eq!(asset.get_dimensions(), Vec2I::new(3, 2));
    let px = asset.pixels();
    assert_eq!(px.len(), 6);
    assert_eq!(px[0], GLTexPixel { r: 0, g: 0, b: 7, a: 255 });
    assert_eq!(px[4], GLTexPixel { r: 40, g: 90, b: 7, a: 255 });
}

#[test]
fn decode_bytes_rejects_garbage() {
    assert_eq!(ImageAsset::decode_bytes(&[1, 2, 3, 4]), None);
}

#[test]
fn sampled_black_filter() {
    let black = ImageAsset {
        data: vec![GLTexPixel { r: 0, g: 0, b: 0, a: 255 }; 300],
        dims: Vec2I::new(20, 15),
    };
    assert!(image_sampled_black(&black));
    // a bright pixel on a sampled index is noticed
    let mut lit = black.clone();
    lit.data[97] = GLTexPixel { r: 200, g: 0, b: 0, a: 255 };
    assert!(!image_sampled_black(&lit));
    // one between sample points is not
    let mut between = black.clone();
    between.data[5] = GLTexPixel { r: 200, g: 0, b: 0, a: 255 };
    assert!(image_sampled_black(&between));
    // an empty capture is trivially all black
    let empty = ImageAsset { data: Vec::new(), dims: Vec2I::new(0, 0) };
    assert!(image_sampled_black(&empty));
}

#[test]
fn denied_window_names_are_filtered() {
    assert!(!candidate_name_allowed("Settings"));
    assert!(!candidate_name_allowed(SELF_WINDOW_TITLE));
    assert!(candidate_name_allowed("editor"));
    // the rule is exact, not case-folding or prefix-based
    assert!(candidate_name_allowed("settings"));
    assert!(candidate_name_allowed("Settings2"));
    assert!(candidate_name_allowed(""));
}

#[test]
fn edge_detector_on_black_capture_yields_no_spot() {
    // the full pipeline on a uniform black capture: downscale, detect
    // edges, search -- and fail cleanly
    let data = vec![GLTexPixel { r: 0, g: 0, b: 0, a: 255 }; 256 * 256];
    let img = ImageAsset { data, dims: Vec2I::new(256, 256) };
    let w = ExtWindowInfo {
        hwnd: 4,
        window_name: String::from("dark"),
        img: img.clone(),
        rect: RectI { pos: Vec2I::new(0, 0), dim: Vec2I::new(256, 256) },
    };
    let g = downscale_for_detection(&img);
    let gray = image::GrayImage::from_raw(g.width, g.height, g.data.clone()).unwrap();
    let edges = imageproc::edges::canny(&gray, 0.5, 10.0);
    let mask = GrayBuf { width: edges.width(), height: edges.height(), data: edges.into_raw() };
    assert_eq!(find_hiding_spot_in_window(&w, &mask), None);
}

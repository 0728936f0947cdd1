use naev_textures::{
    AddressMode, BorderColor, DecodedImage, FilterMode, Flags, Ratio, TextureBuilder,
    TextureError, TextureManager, TextureSource, sprite_request, storage_format,
    OPENGL_TEX_CLAMP_ALPHA, OPENGL_TEX_MAPTRANS, OPENGL_TEX_MIPMAPS, OPENGL_TEX_NOTSRGB,
    OPENGL_TEX_SDF, OPENGL_TEX_SKIPCACHE, OPENGL_TEX_VFLIP,
};

fn png_bytes(w: u32, h: u32) -> Vec<u8> {
    let img = image::RgbaImage::from_pixel(w, h, image::Rgba([10, 20, 30, 40]));
    let mut out = std::io::Cursor::new(Vec::new());
    img.write_to(&mut out, image::ImageFormat::Png).unwrap();
    out.into_inner()
}

/// Runs a request the way the boundary does: decode and upload only on a
/// cache miss, then register the view with a fresh sampler id.
fn request(
    m: &mut TextureManager,
    mut b: TextureBuilder,
    bytes: Option<Vec<u8>>,
    next_id: &mut u32,
    decodes: &mut u32,
) -> Result<usize, TextureError> {
    let fresh = if b.prepare(m, bytes)? {
        *decodes += 1;
        *next_id += 1;
        Some(*next_id)
    } else {
        None
    };
    *next_id += 1;
    b.build(m, fresh, *next_id)
}

#[test]
fn gl_values_match_glow() {
    assert_eq!(AddressMode::ClampToEdge.to_gl(), glow::CLAMP_TO_EDGE as i32);
    assert_eq!(AddressMode::Repeat.to_gl(), glow::REPEAT as i32);
    assert_eq!(AddressMode::MirrorRepeat.to_gl(), glow::MIRRORED_REPEAT as i32);
    assert_eq!(AddressMode::ClampToBorder.to_gl(), glow::CLAMP_TO_BORDER as i32);
    assert_eq!(FilterMode::Nearest.to_gl(), glow::NEAREST as i32);
    assert_eq!(FilterMode::Linear.to_gl(), glow::LINEAR as i32);
}

#[test]
fn storage_format_four_combinations() {
    assert_eq!(storage_format(true, true), glow::SRGB_ALPHA);
    assert_eq!(storage_format(true, false), glow::SRGB);
    assert_eq!(storage_format(false, true), glow::RGBA);
    assert_eq!(storage_format(false, false), glow::RGB);
}

#[test]
fn flags_decode_each_bit() {
    let f = Flags::from(0);
    assert!(!f.maptrans && !f.mipmaps && !f.vflip && !f.skipcache && !f.sdf && !f.clamp_alpha && !f.notsrgb);
    assert!(Flags::from(OPENGL_TEX_MAPTRANS).maptrans);
    assert!(Flags::from(OPENGL_TEX_MIPMAPS).mipmaps);
    assert!(Flags::from(OPENGL_TEX_VFLIP).vflip);
    assert!(Flags::from(OPENGL_TEX_SKIPCACHE).skipcache);
    assert!(Flags::from(OPENGL_TEX_SDF).sdf);
    assert!(Flags::from(OPENGL_TEX_CLAMP_ALPHA).clamp_alpha);
    assert!(Flags::from(OPENGL_TEX_NOTSRGB).notsrgb);
    let all = Flags::from(0x7f);
    assert!(all.maptrans && all.mipmaps && all.vflip && all.skipcache && all.sdf && all.clamp_alpha && all.notsrgb);
    let unknown = Flags::from(0x80);
    assert!(!unknown.maptrans && !unknown.notsrgb);
}

#[test]
fn builder_defaults() {
    let b = TextureBuilder::new();
    assert!(b.name.is_empty());
    assert!(matches!(b.source, TextureSource::Unset));
    assert_eq!((b.sx, b.sy), (1, 1));
    assert!(b.is_srgb && !b.is_sdf && !b.mipmaps && !b.skip_cache);
    assert_eq!(b.address_u, AddressMode::Repeat);
    assert_eq!(b.min_filter, FilterMode::Linear);
    assert_eq!(b.border_value, None);
}

#[test]
fn builder_setters() {
    let b = TextureBuilder::new()
        .from_path("gfx/a.png")
        .sx(3)
        .sy(5)
        .srgb(false)
        .filter(FilterMode::Nearest)
        .address_mode(AddressMode::MirrorRepeat)
        .mipmaps(true);
    assert_eq!(b.name, "gfx/a.png");
    assert!(matches!(&b.source, TextureSource::Path(p) if p == "gfx/a.png"));
    assert_eq!((b.sx, b.sy), (3, 5));
    assert!(!b.is_srgb && b.mipmaps);
    assert_eq!(b.min_filter, FilterMode::Nearest);
    assert_eq!(b.mag_filter, FilterMode::Nearest);
    assert_eq!(b.address_u, AddressMode::MirrorRepeat);
    assert_eq!(b.address_v, AddressMode::MirrorRepeat);
    let s = b.sampler_state(9);
    assert_eq!(s.id, 9);
    assert_eq!(s.wrap_s, AddressMode::MirrorRepeat);
    assert_eq!(s.border, None);
}

#[test]
fn border_forces_clamp_to_border() {
    let c = BorderColor { r: 1, g: 2, b: 3, a: 4 };
    let b = TextureBuilder::new().address_mode(AddressMode::Repeat).border(Some(c));
    assert_eq!(b.address_u, AddressMode::ClampToBorder);
    assert_eq!(b.address_v, AddressMode::ClampToBorder);
    let later = b.address_mode_u(AddressMode::MirrorRepeat).address_mode_v(AddressMode::ClampToEdge);
    let s = later.sampler_state(1);
    assert_eq!(s.wrap_s, AddressMode::ClampToBorder);
    assert_eq!(s.wrap_t, AddressMode::ClampToBorder);
    assert_eq!(s.border, Some(c));
}

#[test]
fn sprite_request_from_flags() {
    let b = sprite_request("gfx/s.png", 4, 2, OPENGL_TEX_CLAMP_ALPHA | OPENGL_TEX_NOTSRGB | OPENGL_TEX_MIPMAPS);
    assert_eq!(b.name, "gfx/s.png");
    assert_eq!((b.sx, b.sy), (4, 2));
    assert!(!b.is_srgb && b.mipmaps && !b.skip_cache && !b.is_sdf);
    assert_eq!(b.border_value, Some(BorderColor { r: 0, g: 0, b: 0, a: 0 }));
    assert_eq!(b.address_u, AddressMode::ClampToBorder);
    let plain = sprite_request("gfx/s.png", 1, 1, 0);
    assert!(plain.is_srgb);
    assert_eq!(plain.border_value, None);
    assert_eq!(plain.address_v, AddressMode::Repeat);
    assert_eq!(plain.cache_key(), "gfx/s.png");
    assert_eq!(sprite_request("gfx/s.png", 1, 1, OPENGL_TEX_SKIPCACHE).cache_key(), "");
}

#[test]
fn load_path_decodes_png() {
    let mut b = TextureBuilder::new().from_path("gfx/p.png");
    let img = b.load_image(Some(png_bytes(3, 2))).unwrap();
    assert_eq!((img.width, img.height, img.has_alpha), (3, 2, true));
    assert_eq!(img.pixels.len(), 3 * 2 * 4);
    assert_eq!(&img.pixels[0..4], &[10, 20, 30, 40]);
    assert!(matches!(b.source, TextureSource::Unset));
}

#[test]
fn load_path_errors() {
    let mut missing = TextureBuilder::new().from_path("gfx/none.png");
    assert_eq!(missing.load_image(None).err(), Some(TextureError::Source));
    let mut garbage = TextureBuilder::new().from_path("gfx/bad.png");
    assert_eq!(garbage.load_image(Some(vec![1, 2, 3, 4, 5])).err(), Some(TextureError::Decode));
    let mut sdf = TextureBuilder::new().from_path("gfx/p.png").sdf(true);
    assert_eq!(sdf.load_image(Some(png_bytes(1, 1))).err(), Some(TextureError::Unsupported));
    let mut unset = TextureBuilder::new();
    assert_eq!(unset.load_image(None).err(), Some(TextureError::Unsupported));
}

#[test]
fn load_raw_data() {
    let data: Vec<u8> = (0..32).collect();
    let mut b = TextureBuilder::new().width(2).height(4).from_data(data.clone());
    let img = b.load_image(None).unwrap();
    assert_eq!((img.width, img.height, img.has_alpha), (2, 4, true));
    assert_eq!(img.pixels, data);
    let mut short = TextureBuilder::new().width(3).height(4).from_data(data);
    assert_eq!(short.load_image(None).err(), Some(TextureError::Decode));
}

#[test]
fn load_decoded_image() {
    let img = DecodedImage { width: 1, height: 1, has_alpha: false, pixels: vec![1, 2, 3, 255] };
    let mut b = TextureBuilder::new().from_image(img);
    let out = b.load_image(None).unwrap();
    assert_eq!((out.width, out.height, out.has_alpha), (1, 1, false));
    assert_eq!(out.pixels, vec![1, 2, 3, 255]);
}

#[test]
fn cache_dedup_same_name() {
    let mut m = TextureManager::new();
    let (mut ids, mut decodes) = (0u32, 0u32);
    let a = request(&mut m, sprite_request("gfx/a.png", 1, 1, 0), Some(png_bytes(4, 4)), &mut ids, &mut decodes).unwrap();
    let b = request(&mut m, sprite_request("gfx/a.png", 2, 2, 0), Some(png_bytes(4, 4)), &mut ids, &mut decodes).unwrap();
    assert_eq!(decodes, 1);
    assert_ne!(a, b);
    assert_eq!(m.view(a).resource, m.view(b).resource);
    assert_eq!(m.data(a).texture, m.data(b).texture);
    assert_ne!(m.view(a).sampler.id, m.view(b).sampler.id);
    assert_eq!(m.find(&String::from("gfx/a.png")), Some(m.view(a).resource));
}

#[test]
fn unnamed_requests_never_shared() {
    let mut m = TextureManager::new();
    let (mut ids, mut decodes) = (0u32, 0u32);
    let bytes = png_bytes(2, 2);
    let a = request(&mut m, sprite_request("gfx/u.png", 1, 1, OPENGL_TEX_SKIPCACHE), Some(bytes.clone()), &mut ids, &mut decodes).unwrap();
    let b = request(&mut m, sprite_request("gfx/u.png", 1, 1, OPENGL_TEX_SKIPCACHE), Some(bytes), &mut ids, &mut decodes).unwrap();
    assert_eq!(decodes, 2);
    assert_ne!(m.view(a).resource, m.view(b).resource);
    assert_ne!(m.data(a).texture, m.data(b).texture);
    assert_eq!(m.find(&String::new()), None);
    let raw = |m: &mut TextureManager, ids: &mut u32, d: &mut u32| {
        let b = TextureBuilder::new().width(1).height(1).from_data(vec![0, 0, 0, 0]);
        request(m, b, None, ids, d).unwrap()
    };
    let c = raw(&mut m, &mut ids, &mut decodes);
    let d = raw(&mut m, &mut ids, &mut decodes);
    assert_ne!(m.view(c).resource, m.view(d).resource);
}

#[test]
fn texture_released_after_last_free() {
    let mut m = TextureManager::new();
    let (mut ids, mut decodes) = (0u32, 0u32);
    let a = request(&mut m, sprite_request("gfx/r.png", 1, 1, 0), Some(png_bytes(2, 2)), &mut ids, &mut decodes).unwrap();
    let tex = m.data(a).texture;
    let b = m.duplicate(a, 100).unwrap();
    let c = m.duplicate(b, 101).unwrap();
    let r1 = m.free(a);
    assert_eq!(r1.texture, None);
    assert!(!m.is_valid(a));
    let r2 = m.free(c);
    assert_eq!(r2, naev_textures::Released { sampler: 101, texture: None });
    let r3 = m.free(b);
    assert_eq!(r3, naev_textures::Released { sampler: 100, texture: Some(tex) });
    assert_eq!(m.find(&String::from("gfx/r.png")), None);
    let again = request(&mut m, sprite_request("gfx/r.png", 1, 1, 0), Some(png_bytes(2, 2)), &mut ids, &mut decodes).unwrap();
    assert_eq!(decodes, 2);
    assert_ne!(m.data(again).texture, tex);
}

#[test]
fn duplicate_sampler_is_independent() {
    let mut m = TextureManager::new();
    let (mut ids, mut decodes) = (0u32, 0u32);
    let b = sprite_request("gfx/d.png", 1, 1, 0).filter(FilterMode::Nearest).address_mode(AddressMode::MirrorRepeat);
    let a = request(&mut m, b, Some(png_bytes(2, 2)), &mut ids, &mut decodes).unwrap();
    let d = m.duplicate(a, 50).unwrap();
    let copied = m.view(d).sampler;
    assert_eq!(copied.id, 50);
    assert_eq!(copied.wrap_s, AddressMode::MirrorRepeat);
    assert_eq!(copied.min_filter, FilterMode::Nearest);
    let before = m.view(a).sampler;
    let mut changed = copied;
    changed.wrap_s = AddressMode::ClampToEdge;
    changed.mag_filter = FilterMode::Linear;
    m.set_sampler(d, changed);
    assert_eq!(m.view(a).sampler, before);
    assert_eq!(m.view(d).sampler, changed);
    assert_eq!(m.view(d).path, m.view(a).path);
}

fn as_f64(r: Ratio) -> f64 {
    r.num as f64 / r.den as f64
}

#[test]
fn sprite_geometry() {
    let mut m = TextureManager::new();
    let mut b = sprite_request("gfx/sheet.png", 4, 2, 0);
    assert_eq!(b.prepare(&m, Some(png_bytes(256, 128))), Ok(true));
    let h = b.build(&mut m, Some(7), 8).unwrap();
    assert_eq!((m.data(h).w, m.data(h).h), (256, 128));
    assert_eq!(m.frame_width(h), Ratio { num: 256, den: 4 });
    assert_eq!(as_f64(m.frame_width(h)), 64.0);
    assert_eq!(as_f64(m.frame_height(h)), 64.0);
    assert_eq!(as_f64(m.frame_width_normalized(h)), 0.25);
    assert_eq!(as_f64(m.frame_height_normalized(h)), 0.5);
    assert_eq!(m.frame_height_normalized(h), Ratio { num: 128, den: 256 });
}

#[test]
fn missing_path_leaves_registry_unchanged() {
    let mut m = TextureManager::new();
    let (mut ids, mut decodes) = (0u32, 0u32);
    let r = request(&mut m, sprite_request("gfx/missing.png", 1, 1, 0), None, &mut ids, &mut decodes);
    assert_eq!(r, Err(TextureError::Source));
    assert_eq!(m.find(&String::from("gfx/missing.png")), None);
    assert!(!m.is_valid(0));
    let ok = request(&mut m, sprite_request("gfx/there.png", 1, 1, 0), Some(png_bytes(1, 1)), &mut ids, &mut decodes).unwrap();
    assert_eq!(ok, 0);
}

#[test]
fn view_metadata() {
    let mut m = TextureManager::new();
    let (mut ids, mut decodes) = (0u32, 0u32);
    let h = request(&mut m, sprite_request("gfx/meta.png", 1, 1, OPENGL_TEX_NOTSRGB), Some(png_bytes(5, 3)), &mut ids, &mut decodes).unwrap();
    let d = m.data(h);
    assert_eq!(d.name, "gfx/meta.png");
    assert!(!d.is_srgb && !d.is_sdf);
    assert_eq!(d.vmax, 1);
    assert_eq!(m.view(h).name, "gfx/meta.png");
    assert_eq!(m.frame_width(h), Ratio { num: 5, den: 1 });
}

#[test]
fn raw_data_must_match_size_exactly() {
    let mut long = TextureBuilder::new().width(1).height(1).from_data(vec![0; 8]);
    assert_eq!(long.load_image(None).err(), Some(TextureError::Decode));
    let mut empty = TextureBuilder::new().width(2).height(2).from_data(Vec::new());
    assert_eq!(empty.load_image(None).err(), Some(TextureError::Decode));
}

#[test]
fn prepare_errors_leave_registry_unchanged() {
    let mut m = TextureManager::new();
    let (mut ids, mut decodes) = (0u32, 0u32);
    let unset = TextureBuilder::new();
    assert_eq!(request(&mut m, unset, None, &mut ids, &mut decodes), Err(TextureError::Unsupported));
    let sdf = sprite_request("gfx/f.png", 1, 1, OPENGL_TEX_SDF);
    assert_eq!(request(&mut m, sdf, Some(png_bytes(1, 1)), &mut ids, &mut decodes), Err(TextureError::Unsupported));
    let bad = sprite_request("gfx/b.png", 1, 1, 0);
    assert_eq!(request(&mut m, bad, Some(vec![0, 1, 2]), &mut ids, &mut decodes), Err(TextureError::Decode));
    let short = TextureBuilder::new().width(2).height(2).from_data(vec![0; 4]);
    assert_eq!(request(&mut m, short, None, &mut ids, &mut decodes), Err(TextureError::Decode));
    assert_eq!(decodes, 0);
    assert!(!m.is_valid(0));
    assert_eq!(m.find(&String::from("gfx/b.png")), None);
}

#[test]
fn cache_hit_skips_reading_but_not_source_checks() {
    let mut m = TextureManager::new();
    let (mut ids, mut decodes) = (0u32, 0u32);
    let a = request(&mut m, sprite_request("gfx/h.png", 1, 1, 0), Some(png_bytes(2, 2)), &mut ids, &mut decodes).unwrap();
    let mut again = sprite_request("gfx/h.png", 1, 1, 0);
    assert_eq!(again.prepare(&m, None), Ok(false));
    assert!(matches!(again.source, TextureSource::Path(_)));
    let b = again.build(&mut m, None, 99).unwrap();
    assert_eq!(m.view(b).resource, m.view(a).resource);
    let mut sdf = sprite_request("gfx/h.png", 1, 1, OPENGL_TEX_SDF);
    assert_eq!(sdf.prepare(&m, None), Err(TextureError::Unsupported));
    assert_eq!(sdf.build(&mut m, None, 98), Err(TextureError::Unsupported));
    assert!(!m.is_valid(2));
}

#[test]
fn hardware_ids_in_use() {
    let mut m = TextureManager::new();
    let (mut ids, mut decodes) = (0u32, 0u32);
    let a = request(&mut m, sprite_request("gfx/i.png", 1, 1, 0), Some(png_bytes(2, 2)), &mut ids, &mut decodes).unwrap();
    let tex = m.data(a).texture;
    let smp = m.view(a).sampler.id;
    assert!(m.texture_in_use(tex));
    assert!(m.sampler_in_use(smp));
    assert!(!m.sampler_in_use(smp + 100));
    m.free(a);
    assert!(!m.texture_in_use(tex));
    assert!(!m.sampler_in_use(smp));
}

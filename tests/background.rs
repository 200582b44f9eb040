use std::cell::Cell;
use std::io::Cursor;

use background_renderer::decode::{decode_contents, decode_rgb8, DecodedImage, LoadError};
use background_renderer::quad::{quad_vertices, Vertex, QUAD_VERTEX_COUNT};
use background_renderer::renderer::{
    BackgroundImage, BackgroundRenderer, BackgroundUpdate, BlendFactor, DrawCommand, Ratio,
    SetupCommand, TextureParameter, TextureValue, Viewport,
};

fn png_bytes(width: u32, height: u32) -> Vec<u8> {
    let img = image::RgbImage::from_fn(width, height, |x, y| image::Rgb([x as u8, y as u8, 7]));
    let mut out = Cursor::new(Vec::new());
    img.write_to(&mut out, image::ImageFormat::Png).unwrap();
    out.into_inner()
}

fn ratio_value(r: Ratio) -> f64 {
    r.num as f64 / r.den as f64
}

#[test]
fn new_renderer_has_nothing_to_draw() {
    let r = BackgroundRenderer::new();
    assert!(!r.should_draw());
    assert!(r.background_image().is_none());
}

#[test]
fn quad_is_two_triangles_over_clip_space() {
    let q = quad_vertices();
    assert_eq!(q.len(), QUAD_VERTEX_COUNT);
    assert_eq!(q[0], Vertex { x: -1, y: 1, u: 0, v: 0 });
    assert_eq!(q[1], Vertex { x: 1, y: 1, u: 1, v: 0 });
    assert_eq!(q[2], Vertex { x: 1, y: -1, u: 1, v: 1 });
    assert_eq!(q[3], Vertex { x: 1, y: -1, u: 1, v: 1 });
    assert_eq!(q[4], Vertex { x: -1, y: -1, u: 0, v: 1 });
    assert_eq!(q[5], Vertex { x: -1, y: 1, u: 0, v: 0 });
    assert_eq!(BackgroundRenderer::new().vertices(), q);
}

#[test]
fn quad_unchanged_by_requests() {
    let mut r = BackgroundRenderer::new();
    r.set_background(&"a.png".to_string(), || Ok(png_bytes(3, 2)));
    r.set_background(&"missing.png".to_string(), || Err("not found".to_string()));
    assert_eq!(r.vertices(), quad_vertices());
}

#[test]
fn same_path_twice_loads_once() {
    let mut r = BackgroundRenderer::new();
    let reads = Cell::new(0u32);
    let path = "bg.png".to_string();
    let first = r.set_background(&path, || {
        reads.set(reads.get() + 1);
        Ok(png_bytes(4, 2))
    });
    assert!(matches!(first, BackgroundUpdate::Upload(_)));
    let second = r.set_background(&path, || {
        reads.set(reads.get() + 1);
        Ok(png_bytes(4, 2))
    });
    assert!(matches!(second, BackgroundUpdate::Unchanged));
    assert_eq!(reads.get(), 1);
}

#[test]
fn failed_path_is_not_retried() {
    let mut r = BackgroundRenderer::new();
    let reads = Cell::new(0u32);
    let path = "missing.png".to_string();
    let first = r.set_background(&path, || {
        reads.set(reads.get() + 1);
        Err("no such file".to_string())
    });
    match first {
        BackgroundUpdate::Failed(LoadError::Read(msg)) => assert_eq!(msg, "no such file"),
        other => panic!("unexpected {:?}", other),
    }
    let second = r.set_background(&path, || {
        reads.set(reads.get() + 1);
        Err("no such file".to_string())
    });
    assert!(matches!(second, BackgroundUpdate::Unchanged));
    assert_eq!(reads.get(), 1);
    assert!(r.should_draw());
    match r.background_image() {
        Some(BackgroundImage::Failed { path: p }) => assert_eq!(p, &path),
        other => panic!("unexpected {:?}", other),
    }
}

#[test]
fn undecodable_bytes_fail_with_decode_error() {
    let mut r = BackgroundRenderer::new();
    let update = r.set_background(&"junk.png".to_string(), || Ok(vec![1, 2, 3, 4, 5]));
    match update {
        BackgroundUpdate::Failed(LoadError::Decode(msg)) => assert!(!msg.is_empty()),
        other => panic!("unexpected {:?}", other),
    }
    assert!(r.should_draw());
}

#[test]
fn path_change_loads_again() {
    let mut r = BackgroundRenderer::new();
    let reads = Cell::new(0u32);
    let count = || {
        reads.set(reads.get() + 1);
        Ok(png_bytes(2, 2))
    };
    r.set_background(&"one.png".to_string(), count);
    let again = r.set_background(&"two.png".to_string(), || {
        reads.set(reads.get() + 1);
        Ok(png_bytes(6, 3))
    });
    assert_eq!(reads.get(), 2);
    match again {
        BackgroundUpdate::Upload(d) => assert_eq!((d.width, d.height), (6, 3)),
        other => panic!("unexpected {:?}", other),
    }
    match r.background_image() {
        Some(BackgroundImage::Loaded { path, width, height }) => {
            assert_eq!(path, "two.png");
            assert_eq!((*width, *height), (6, 3));
        },
        other => panic!("unexpected {:?}", other),
    }
}

#[test]
fn should_draw_after_success_and_after_failure() {
    let mut ok = BackgroundRenderer::new();
    ok.set_background(&"ok.png".to_string(), || Ok(png_bytes(1, 1)));
    assert!(ok.should_draw());
    let mut bad = BackgroundRenderer::new();
    bad.set_background(&"bad.png".to_string(), || Err("denied".to_string()));
    assert!(bad.should_draw());
}

#[test]
fn uniform_keeps_aspect_ratio() {
    let mut r = BackgroundRenderer::new();
    let img = DecodedImage { width: 1600, height: 800, pixels: vec![0; 1600 * 800 * 3] };
    let update = r.finish_load(&"wide.png".to_string(), Ok(img));
    assert!(matches!(update, BackgroundUpdate::Upload(_)));
    let u = r.update_uniforms(&Viewport { width: 1920, height: 1080 }, 0.5f32).unwrap();
    assert_eq!(u.scale_x, Ratio { num: 1600, den: 1920 });
    assert_eq!(u.scale_y, Ratio { num: 800, den: 1080 });
    assert_eq!(u.alpha, 0.5f32);
    assert!((ratio_value(u.scale_x) - 0.833333).abs() < 1e-5);
    assert!((ratio_value(u.scale_y) - 0.740740).abs() < 1e-5);
}

#[test]
fn no_uniform_without_background() {
    let r = BackgroundRenderer::new();
    assert!(r.update_uniforms(&Viewport { width: 800, height: 600 }, 1.0f32).is_none());
    let cmds = r.draw(&Viewport { width: 800, height: 600 }, 1.0f32);
    assert_eq!(cmds.len(), 9);
    assert!(!cmds.iter().any(|c| matches!(c, DrawCommand::SetSizeInfo(_))));
}

#[test]
fn failed_load_uniform_is_zero_for_any_viewport() {
    let mut r = BackgroundRenderer::new();
    r.finish_load(&"gone.png".to_string(), Err(LoadError::Read("gone".to_string())));
    for (w, h) in [(1920u32, 1080u32), (1, 1), (800, 600), (3, 4000), (0, 0), (0, 700), (700, 0)] {
        let u = r.update_uniforms(&Viewport { width: w, height: h }, 0.25f32).unwrap();
        assert_eq!(u.scale_x, Ratio { num: 0, den: 1 });
        assert_eq!(u.scale_y, Ratio { num: 0, den: 1 });
        assert_eq!(ratio_value(u.scale_x), 0.0);
        assert_eq!(ratio_value(u.scale_y), 0.0);
        assert_eq!(u.alpha, 0.25f32);
    }
}

#[test]
fn end_to_end_valid_image() {
    let mut r = BackgroundRenderer::new();
    let update = r.set_background(&"valid.png".to_string(), || Ok(png_bytes(400, 200)));
    match &update {
        BackgroundUpdate::Upload(d) => {
            assert_eq!((d.width, d.height), (400, 200));
            assert_eq!(d.pixels.len(), 400 * 200 * 3);
            assert_eq!(&d.pixels[..3], &[0, 0, 7]);
            assert_eq!(&d.pixels[3..6], &[1, 0, 7]);
        },
        other => panic!("unexpected {:?}", other),
    }
    assert!(r.should_draw());
    let cmds = r.draw(&Viewport { width: 800, height: 600 }, 1.0f32);
    assert_eq!(cmds.len(), 10);
    let draws: Vec<_> =
        cmds.iter().filter(|c| matches!(c, DrawCommand::DrawTriangles { .. })).collect();
    assert_eq!(draws.len(), 1);
    assert!(matches!(draws[0], DrawCommand::DrawTriangles { first: 0, count: 6 }));
    match &cmds[4] {
        DrawCommand::SetSizeInfo(u) => {
            assert_eq!(ratio_value(u.scale_x), 0.5);
            assert!((ratio_value(u.scale_y) - 1.0 / 3.0).abs() < 1e-9);
            assert_eq!(u.alpha, 1.0f32);
        },
        other => panic!("unexpected {:?}", other),
    }
}

#[test]
fn draw_blends_binds_and_restores() {
    let mut r = BackgroundRenderer::new();
    r.set_background(&"x.png".to_string(), || Ok(png_bytes(2, 1)));
    let cmds = r.draw(&Viewport { width: 10, height: 10 }, 0.75f32);
    assert!(matches!(
        cmds[0],
        DrawCommand::BlendFuncSeparate {
            src_rgb: BlendFactor::SrcAlpha,
            dst_rgb: BlendFactor::OneMinusSrcAlpha,
            src_alpha: BlendFactor::SrcAlpha,
            dst_alpha: BlendFactor::One,
        }
    ));
    assert!(matches!(cmds[1], DrawCommand::BindVertexArray));
    assert!(matches!(cmds[2], DrawCommand::UseProgram));
    assert!(matches!(cmds[3], DrawCommand::BindTexture));
    assert!(matches!(cmds[6], DrawCommand::UnbindTexture));
    assert!(matches!(cmds[7], DrawCommand::UnbindVertexArray));
    assert!(matches!(cmds[8], DrawCommand::UnuseProgram));
    assert!(matches!(
        cmds[9],
        DrawCommand::BlendFunc { src: BlendFactor::Src1Color, dst: BlendFactor::OneMinusSrc1Color }
    ));
}

#[test]
fn setup_allocates_quad_and_texture() {
    let cmds = BackgroundRenderer::new().setup_commands();
    assert_eq!(cmds.len(), 18);
    assert_eq!(
        cmds[5],
        SetupCommand::VertexAttribute { index: 0, components: 2, stride: 4, offset: 0 }
    );
    assert_eq!(
        cmds[7],
        SetupCommand::VertexAttribute { index: 1, components: 2, stride: 4, offset: 2 }
    );
    assert_eq!(
        cmds[11],
        SetupCommand::SetTextureParameter {
            parameter: TextureParameter::WrapS,
            value: TextureValue::Repeat
        }
    );
    assert_eq!(
        cmds[14],
        SetupCommand::SetTextureParameter {
            parameter: TextureParameter::MagFilter,
            value: TextureValue::Nearest
        }
    );
    assert_eq!(&cmds[15..], &[
        SetupCommand::UnbindVertexArray,
        SetupCommand::UnbindArrayBuffer,
        SetupCommand::UnbindTexture
    ]);
}

#[test]
fn decode_converts_to_rgb8() {
    let rgba = image::RgbaImage::from_fn(3, 2, |x, _| image::Rgba([10 * x as u8, 20, 30, 40]));
    let mut out = Cursor::new(Vec::new());
    rgba.write_to(&mut out, image::ImageFormat::Png).unwrap();
    let d = decode_rgb8("pic.png", &out.into_inner()).unwrap();
    assert_eq!((d.width, d.height), (3, 2));
    assert_eq!(d.pixels.len(), 18);
    assert_eq!(&d.pixels[3..6], &[10, 20, 30]);
}

#[test]
fn decode_rejects_empty_input() {
    match decode_rgb8("empty.png", &[]) {
        Err(LoadError::Decode(msg)) => assert!(!msg.is_empty()),
        other => panic!("unexpected {:?}", other.map(|d| (d.width, d.height))),
    }
}

#[test]
fn read_error_is_passed_on() {
    match decode_contents("locked.png", Err("permission denied".to_string())) {
        Err(LoadError::Read(msg)) => assert_eq!(msg, "permission denied"),
        other => panic!("unexpected {:?}", other.map(|d| (d.width, d.height))),
    }
    let d = decode_contents("five.png", Ok(png_bytes(5, 4))).unwrap();
    assert_eq!((d.width, d.height), (5, 4));
    assert!(matches!(decode_contents("zeros.png", Ok(vec![0; 8])), Err(LoadError::Decode(_))));
}

#[test]
fn format_comes_from_the_extension() {
    let png = png_bytes(4, 3);
    assert!(matches!(decode_rgb8("photo.jpg", &png), Err(LoadError::Decode(_))));
    assert!(matches!(decode_rgb8("no_extension", &png), Err(LoadError::Decode(_))));
    assert!(matches!(decode_rgb8("notes.txt", &png), Err(LoadError::Decode(_))));
    let d = decode_rgb8("dir.d/picture.png", &png).unwrap();
    assert_eq!((d.width, d.height, d.pixels.len()), (4, 3, 36));
}

#[test]
fn mislabelled_file_is_a_failed_load() {
    let mut r = BackgroundRenderer::new();
    let update = r.set_background(&"bg.gif".to_string(), || Ok(png_bytes(2, 2)));
    assert!(matches!(update, BackgroundUpdate::Failed(LoadError::Decode(_))));
    assert!(r.should_draw());
    assert!(matches!(r.background_image(), Some(BackgroundImage::Failed { .. })));
}

use del_gl::gl;
use del_gl::gl::GlCall;
use del_gl::off_screen_render::{OffScreenRender, Readback};

#[test]
fn off_screen_new_keeps_size() {
    let r = OffScreenRender::new(640, 480);
    assert_eq!((r.width, r.height), (640, 480));
}

#[test]
fn off_screen_start_attaches_and_clears() {
    let r = OffScreenRender::new(640, 480);
    assert_eq!(
        r.start(5, 6),
        vec![
            GlCall::Viewport { x: 0, y: 0, width: 640, height: 480 },
            GlCall::BindFramebuffer { target: gl::FRAMEBUFFER, framebuffer: 5 },
            GlCall::BindRenderbuffer { target: gl::RENDERBUFFER, renderbuffer: 6 },
            GlCall::RenderbufferStorage {
                target: gl::RENDERBUFFER,
                internal_format: gl::RGB,
                width: 640,
                height: 480,
            },
            GlCall::BindRenderbuffer { target: gl::RENDERBUFFER, renderbuffer: 0 },
            GlCall::FramebufferRenderbuffer {
                target: gl::FRAMEBUFFER,
                attachment: gl::COLOR_ATTACHMENT0,
                renderbuffer_target: gl::RENDERBUFFER,
                renderbuffer: 6,
            },
            GlCall::ClearColor {
                rgba: [0.8f32.to_bits(), 0.8f32.to_bits(), 1.0f32.to_bits(), 1.0f32.to_bits()],
            },
            GlCall::Clear { mask: gl::COLOR_BUFFER_BIT },
        ]
    );
}

#[test]
fn off_screen_save_takes_three_bytes_a_pixel() {
    let r = OffScreenRender::new(640, 480);
    assert_eq!(
        r.save(),
        Some(Readback {
            len: 921_600,
            calls: vec![
                GlCall::ReadBuffer { src: gl::COLOR_ATTACHMENT0 },
                GlCall::ReadPixels {
                    x: 0,
                    y: 0,
                    width: 640,
                    height: 480,
                    format: gl::RGB,
                    kind: gl::UNSIGNED_BYTE,
                    data: 0,
                },
            ],
        })
    );
}

#[test]
fn off_screen_save_of_empty_picture() {
    assert_eq!(OffScreenRender::new(0, 480).save().unwrap().len, 0);
}

#[test]
fn off_screen_save_refuses_what_does_not_fit() {
    assert_eq!(OffScreenRender::new(65_536, 65_536).save(), None);
    assert_eq!(OffScreenRender::new(1_431_655_766, 1).save(), None);
    assert_eq!(OffScreenRender::new(1_431_655_765, 1).save().unwrap().len, 4_294_967_295);
}

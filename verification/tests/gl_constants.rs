use del_gl::gl;

#[test]
fn enumerants_match_the_bindings() {
    assert_eq!(gl::FALSE, ::gl::FALSE);
    assert_eq!(gl::POINTS, ::gl::POINTS);
    assert_eq!(gl::TRIANGLES, ::gl::TRIANGLES);
    assert_eq!(gl::DEPTH_BUFFER_BIT, ::gl::DEPTH_BUFFER_BIT);
    assert_eq!(gl::COLOR_BUFFER_BIT, ::gl::COLOR_BUFFER_BIT);
    assert_eq!(gl::LESS, ::gl::LESS);
    assert_eq!(gl::DEPTH_TEST, ::gl::DEPTH_TEST);
    assert_eq!(gl::UNPACK_ALIGNMENT, ::gl::UNPACK_ALIGNMENT);
    assert_eq!(gl::TEXTURE_2D, ::gl::TEXTURE_2D);
    assert_eq!(gl::UNSIGNED_BYTE, ::gl::UNSIGNED_BYTE);
    assert_eq!(gl::UNSIGNED_INT, ::gl::UNSIGNED_INT);
    assert_eq!(gl::FLOAT, ::gl::FLOAT);
    assert_eq!(gl::RGB, ::gl::RGB);
    assert_eq!(gl::POLYGON_OFFSET_FILL, ::gl::POLYGON_OFFSET_FILL);
    assert_eq!(gl::TEXTURE0, ::gl::TEXTURE0);
    assert_eq!(gl::ARRAY_BUFFER, ::gl::ARRAY_BUFFER);
    assert_eq!(gl::ELEMENT_ARRAY_BUFFER, ::gl::ELEMENT_ARRAY_BUFFER);
    assert_eq!(gl::STATIC_DRAW, ::gl::STATIC_DRAW);
    assert_eq!(gl::FRAGMENT_SHADER, ::gl::FRAGMENT_SHADER);
    assert_eq!(gl::VERTEX_SHADER, ::gl::VERTEX_SHADER);
    assert_eq!(gl::COLOR_ATTACHMENT0, ::gl::COLOR_ATTACHMENT0);
    assert_eq!(gl::FRAMEBUFFER, ::gl::FRAMEBUFFER);
    assert_eq!(gl::RENDERBUFFER, ::gl::RENDERBUFFER);
}

#[test]
fn a_word_has_the_size_of_a_float_and_of_an_index() {
    assert_eq!(gl::WORD_BYTES, std::mem::size_of::<f32>());
    assert_eq!(gl::WORD_BYTES, std::mem::size_of::<::gl::types::GLuint>());
}

use std::io;

use tetra::{Context, GLProgram, GraphicsDevice, Shader, ShaderLoad, TetraError};

const VALID_VERTEX: &str = "void main() { gl_Position = vec4(0.0); }";
const VALID_FRAGMENT: &str = "void main() { gl_FragColor = vec4(1.0); }";

/// A stand-in driver: it accepts source that defines `main` and numbers the
/// programs it hands out.
struct FakeDevice {
    next_id: u32,
    compiles: usize,
    received: Vec<(String, String)>,
}

impl GraphicsDevice for FakeDevice {
    fn compile_program(
        &mut self,
        vertex_shader: &str,
        fragment_shader: &str,
    ) -> Result<GLProgram, String> {
        self.compiles += 1;
        self.received.push((vertex_shader.to_string(), fragment_shader.to_string()));
        for (stage, src) in [("vertex", vertex_shader), ("fragment", fragment_shader)] {
            if !src.contains("void main()") {
                return Err(format!("{} shader: 0:1: syntax error, no entry point", stage));
            }
        }
        self.next_id += 1;
        Ok(GLProgram::new(self.next_id))
    }
}

fn context() -> Context<FakeDevice> {
    Context::new(FakeDevice { next_id: 0, compiles: 0, received: Vec::new() })
}

fn not_found() -> io::Error {
    io::Error::new(io::ErrorKind::NotFound, "no such file")
}

#[test]
fn compile_from_valid_strings_gives_handle_equal_to_its_clone() {
    let mut ctx = context();
    let handle = Shader::from_string(&mut ctx, VALID_VERTEX, VALID_FRAGMENT).unwrap();
    assert!(handle.clone() == handle);
    assert_eq!(ctx.gl().compiles, 1);
}

#[test]
fn compile_from_invalid_fragment_gives_invalid_shader() {
    let mut ctx = context();
    match Shader::from_string(&mut ctx, VALID_VERTEX, "not glsl") {
        Err(TetraError::InvalidShader(msg)) => {
            assert!(!msg.is_empty());
            assert!(msg.contains("syntax error"));
        }
        other => panic!("expected InvalidShader, got {:?}", other),
    }
}

#[test]
fn from_compiled_maps_driver_answer() {
    let s = Shader::from_compiled(Ok(GLProgram::new(9))).unwrap();
    assert!(s == Shader::from_handle(GLProgram::new(9)));
    match Shader::from_compiled(Err("link failed".to_string())) {
        Err(TetraError::InvalidShader(msg)) => assert_eq!(msg, "link failed"),
        other => panic!("expected InvalidShader, got {:?}", other),
    }
}

#[test]
fn handles_of_different_programs_differ() {
    let mut ctx = context();
    let a = Shader::from_string(&mut ctx, VALID_VERTEX, VALID_FRAGMENT).unwrap();
    let b = Shader::from_string(&mut ctx, VALID_VERTEX, VALID_FRAGMENT).unwrap();
    assert!(a != b);
    assert_eq!(GLProgram::new(3).id(), 3);
}

#[test]
fn clones_of_clones_all_compare_equal() {
    let first = Shader::from_handle(GLProgram::new(5));
    let mut chain = vec![first.clone()];
    for _ in 0..5 {
        let next = chain.last().unwrap().clone();
        chain.push(next);
    }
    for a in &chain {
        assert!(*a == first);
        for b in &chain {
            assert!(a == b);
        }
    }
}

#[test]
fn dropping_clones_keeps_the_last_one_usable() {
    let first = Shader::from_handle(GLProgram::new(11));
    assert_eq!(first.handle_count(), 1);
    let clones: Vec<Shader> = (0..3).map(|_| first.clone()).collect();
    assert_eq!(first.handle_count(), 4);
    let survivor = clones[2].clone();
    drop(clones);
    drop(first);
    assert_eq!(survivor.handle_count(), 1);
    assert!(survivor == Shader::from_handle(GLProgram::new(11)));
}

#[test]
fn load_reads_vertex_then_fragment_and_stops_at_first_failure() {
    let mut ctx = context();
    let load = ShaderLoad::new("ok.vert".to_string(), "missing.frag".to_string());
    assert_eq!(load.next_path().map(|p| p.as_str()), Some("ok.vert"));
    let load = load.advance(&mut ctx, Ok(VALID_VERTEX.to_string()));
    assert_eq!(load.next_path().map(|p| p.as_str()), Some("missing.frag"));
    let load = load.advance(&mut ctx, Err(not_found()));
    assert!(load.next_path().is_none());
    match load.finish() {
        Some(Err(TetraError::FailedToLoadAsset { path, reason })) => {
            assert_eq!(path, "missing.frag");
            assert_eq!(reason.kind(), io::ErrorKind::NotFound);
        }
        other => panic!("expected FailedToLoadAsset, got {:?}", other),
    }
    assert_eq!(ctx.gl().compiles, 0);
}

#[test]
fn load_with_missing_vertex_never_reads_fragment() {
    let mut ctx = context();
    let load = ShaderLoad::new("missing.vert".to_string(), "ok.frag".to_string());
    let load = load.advance(&mut ctx, Err(not_found()));
    assert!(load.next_path().is_none());
    let load = load.advance(&mut ctx, Ok(VALID_FRAGMENT.to_string()));
    match load.finish() {
        Some(Err(TetraError::FailedToLoadAsset { path, .. })) => assert_eq!(path, "missing.vert"),
        other => panic!("expected FailedToLoadAsset, got {:?}", other),
    }
    assert_eq!(ctx.gl().compiles, 0);
}

#[test]
fn load_of_two_good_files_compiles_once() {
    let mut ctx = context();
    let load = ShaderLoad::new("a.vert".to_string(), "a.frag".to_string());
    assert!(matches!(ShaderLoad::new("a".to_string(), "b".to_string()).finish(), None));
    let load = load.advance(&mut ctx, Ok(VALID_VERTEX.to_string()));
    let load = load.advance(&mut ctx, Ok(VALID_FRAGMENT.to_string()));
    let shader = load.finish().unwrap().unwrap();
    assert!(shader == Shader::from_handle(GLProgram::new(1)));
    assert_eq!(ctx.gl().compiles, 1);
}

#[test]
fn load_of_bad_source_gives_invalid_shader() {
    let mut ctx = context();
    let load = ShaderLoad::new("a.vert".to_string(), "a.frag".to_string());
    let load = load.advance(&mut ctx, Ok("not glsl".to_string()));
    let load = load.advance(&mut ctx, Ok(VALID_FRAGMENT.to_string()));
    assert!(matches!(load.finish(), Some(Err(TetraError::InvalidShader(_)))));
}

#[test]
fn from_string_hands_both_sources_to_the_driver_in_order() {
    let mut ctx = context();
    let _ = Shader::from_string(&mut ctx, VALID_VERTEX, "not glsl");
    assert_eq!(
        ctx.gl().received,
        vec![(VALID_VERTEX.to_string(), "not glsl".to_string())]
    );
}

#[test]
fn load_hands_the_two_sources_read_to_the_driver() {
    let mut ctx = context();
    let load = ShaderLoad::new("a.vert".to_string(), "a.frag".to_string());
    let load = load.advance(&mut ctx, Ok(VALID_VERTEX.to_string()));
    assert!(ctx.gl().received.is_empty());
    let _ = load.advance(&mut ctx, Ok(VALID_FRAGMENT.to_string()));
    assert_eq!(
        ctx.gl().received,
        vec![(VALID_VERTEX.to_string(), VALID_FRAGMENT.to_string())]
    );
}

#[test]
fn clones_of_earlier_clones_compare_equal() {
    let first = Shader::from_handle(GLProgram::new(21));
    let a = first.clone();
    let b = a.clone();
    let c = first.clone();
    let d = a.clone();
    for x in [&a, &b, &c, &d] {
        assert!(*x == first);
        for y in [&a, &b, &c, &d] {
            assert!(x == y);
        }
    }
}

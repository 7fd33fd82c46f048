use life::errors::LifeError;
use life::errors::ShaderStage;
use life::program::ShaderProgram;
use life::program::Uniform;

fn program_with(handle: u32, uniforms: &[(&str, i32)]) -> ShaderProgram {
    let uniforms = uniforms
        .iter()
        .map(|&(name, location)| Uniform { name: name.to_string(), location })
        .collect();
    ShaderProgram { handle, uniforms }
}

#[test]
fn uniform_lookup_returns_cached_location() {
    let program = program_with(7, &[("u_texture", 0), ("u_texel_size", 1)]);
    assert_eq!(program.uniform_location(&"u_texture".to_string()).unwrap(), 0);
    assert_eq!(program.uniform_location(&"u_texel_size".to_string()).unwrap(), 1);
}

#[test]
fn uniform_lookup_failure_is_an_error_not_a_sentinel() {
    let program = program_with(7, &[("u_texture", 0)]);
    let result = program.uniform_location(&"u_missing".to_string());
    assert_eq!(
        result,
        Err(LifeError::UnknownUniform { name: "u_missing".to_string() })
    );
}

#[test]
fn uniform_lookup_on_empty_cache_fails() {
    let program = program_with(7, &[]);
    let result = program.uniform_location(&"u_texture".to_string());
    assert_eq!(
        result,
        Err(LifeError::UnknownUniform { name: "u_texture".to_string() })
    );
}

#[test]
fn uniform_lookup_first_match_wins() {
    let program = program_with(7, &[("u_texture", 4), ("u_texture", 9)]);
    assert_eq!(program.uniform_location(&"u_texture".to_string()).unwrap(), 4);
}

#[test]
fn create_reports_vertex_compile_failure_first() {
    let result = ShaderProgram::create(
        1,
        Err("bad vertex".to_string()),
        Err("bad fragment".to_string()),
        Err("not linked".to_string()),
    );
    assert_eq!(
        result.unwrap_err(),
        LifeError::ShaderCompile {
            stage: ShaderStage::Vertex,
            diagnostic: "bad vertex".to_string(),
        }
    );
}

#[test]
fn create_reports_fragment_compile_failure() {
    let result = ShaderProgram::create(
        1,
        Ok(()),
        Err("bad fragment".to_string()),
        Err("not linked".to_string()),
    );
    assert_eq!(
        result.unwrap_err(),
        LifeError::ShaderCompile {
            stage: ShaderStage::Fragment,
            diagnostic: "bad fragment".to_string(),
        }
    );
}

#[test]
fn create_reports_link_failure() {
    let result = ShaderProgram::create(
        1,
        Ok(()),
        Ok(()),
        Err("varying mismatch".to_string()),
    );
    assert_eq!(
        result.unwrap_err(),
        LifeError::ShaderLink { diagnostic: "varying mismatch".to_string() }
    );
}

#[test]
fn create_caches_uniforms_on_success() {
    let uniforms = vec![
        Uniform { name: "u_texture".to_string(), location: 2 },
        Uniform { name: "u_texel_size".to_string(), location: 5 },
    ];
    let program = ShaderProgram::create(42, Ok(()), Ok(()), Ok(uniforms)).unwrap();
    assert_eq!(program.handle, 42);
    assert_eq!(program.uniform_location(&"u_texture".to_string()).unwrap(), 2);
    assert_eq!(program.uniform_location(&"u_texel_size".to_string()).unwrap(), 5);
}

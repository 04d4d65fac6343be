use shader_toy_slang::graphics::recompiler::{
    compiler_args, try_compile_shader_file, CompileError, CompilerDisconnected, Recompiler,
    ShaderUpdate,
};

#[test]
fn slangc_is_asked_for_column_major_spirv() {
    assert_eq!(
        compiler_args("shaders/effect.slang"),
        vec!["-matrix-layout-column-major", "-target", "spirv", "--", "shaders/effect.slang"]
    );
}

#[test]
fn successful_compile_gives_stdout() {
    assert_eq!(try_compile_shader_file(true, vec![3, 2, 35, 7], "warning"), Ok(vec![3, 2, 35, 7]));
}

#[test]
fn failed_compile_quotes_stderr() {
    assert_eq!(
        try_compile_shader_file(false, vec![], "line 3: bad token"),
        Err(CompileError { message: "Error when compiling shader!\n\nline 3: bad token".to_string() })
    );
}

#[test]
fn check_for_update_keeps_latest_bytes() {
    let mut recompiler = Recompiler::new(Ok(vec![1, 2, 3])).unwrap();
    assert_eq!(recompiler.current_shader_bytes(), &[1, 2, 3]);
    assert_eq!(recompiler.check_for_update(ShaderUpdate::Empty), Ok(false));
    assert_eq!(recompiler.current_shader_bytes(), &[1, 2, 3]);
    assert_eq!(recompiler.check_for_update(ShaderUpdate::Received(vec![4, 5])), Ok(true));
    assert_eq!(recompiler.current_shader_bytes(), &[4, 5]);
    assert_eq!(recompiler.check_for_update(ShaderUpdate::Disconnected), Err(CompilerDisconnected));
    assert_eq!(recompiler.current_shader_bytes(), &[4, 5]);
}

#[test]
fn recompiler_refuses_to_start_after_a_failed_first_build() {
    let error = try_compile_shader_file(false, vec![], "oops").unwrap_err();
    let message = error.message.clone();
    match Recompiler::new(Err(error)) {
        Err(e) => assert_eq!(e.message, message),
        Ok(_) => panic!("the recompiler started"),
    }
}

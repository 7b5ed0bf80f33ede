use arraynforest::backend::pipeline::{ComputePipeline, PipelineExecutionError};
use arraynforest::buffers::{pipeline_key, BufferHandlerBuilder, Declaration, PermitShaders};

fn compile(module: &u32, entry_point: &String, key: &String) -> String {
    format!("{}:{}:{}", module, entry_point, key)
}

fn declaration(shader_label: &str, entry_point: &str) -> Declaration {
    Declaration { shader_label: shader_label.to_string(), entry_point: entry_point.to_string() }
}

#[test]
fn key_is_entry_point_at_shader_label() {
    assert_eq!(pipeline_key("main", "add"), "main@add");
    assert_eq!(pipeline_key("", ""), "@");
    assert_eq!(pipeline_key("a@b", "c"), "a@b@c");
}

#[test]
fn registered_shader_with_entry_point_is_built() {
    let handler = BufferHandlerBuilder::<PermitShaders, u32>::new()
        .shader("add", 1)
        .compute_pipeline("add", "main")
        .build(compile);
    assert_eq!(handler.pipeline("main@add"), Some(&"1:main:main@add".to_string()));
    assert_eq!(handler.pipeline("missing@add"), None);
    assert_eq!(handler.pipeline("add@main"), None);
    assert!(handler.missing().is_empty());
}

#[test]
fn declaration_against_missing_shader_is_set_aside() {
    let handler = BufferHandlerBuilder::<PermitShaders, u32>::new()
        .compute_pipeline("never", "main")
        .build(compile);
    assert_eq!(handler.pipeline("main@never"), None);
    assert_eq!(handler.missing(), &vec![declaration("never", "main")]);
}

#[test]
fn later_declarations_are_built_too() {
    let handler = BufferHandlerBuilder::<PermitShaders, u32>::new()
        .shader("add", 1)
        .shader("mul", 2)
        .compute_pipeline("add", "main")
        .compute_pipeline("gone", "first")
        .compute_pipeline("mul", "main")
        .compute_pipeline("add", "other")
        .compute_pipeline("gone", "second")
        .build(compile);
    assert_eq!(handler.pipeline("main@add"), Some(&"1:main:main@add".to_string()));
    assert_eq!(handler.pipeline("main@mul"), Some(&"2:main:main@mul".to_string()));
    assert_eq!(handler.pipeline("other@add"), Some(&"1:other:other@add".to_string()));
    assert_eq!(handler.pipeline("first@gone"), None);
    assert_eq!(
        handler.missing(),
        &vec![declaration("gone", "first"), declaration("gone", "second")]
    );
}

#[test]
fn shader_registered_again_replaces_the_earlier_one() {
    let handler = BufferHandlerBuilder::<PermitShaders, u32>::new()
        .shader("add", 1)
        .shader("add", 5)
        .compute_pipeline("add", "main")
        .build(compile);
    assert_eq!(handler.shader("add"), Some(&5));
    assert_eq!(handler.shader("mul"), None);
    assert_eq!(handler.pipeline("main@add"), Some(&"5:main:main@add".to_string()));
}

#[test]
fn pipeline_declared_twice_is_filed_once() {
    let handler = BufferHandlerBuilder::<PermitShaders, u32>::new()
        .shader("add", 1)
        .compute_pipeline("add", "main")
        .compute_pipeline("add", "main")
        .build(compile);
    assert_eq!(handler.pipeline("main@add"), Some(&"1:main:main@add".to_string()));
}

#[test]
fn declarations_that_share_a_key_give_one_of_their_pipelines() {
    let handler = BufferHandlerBuilder::<PermitShaders, u32>::new()
        .shader("c", 1)
        .shader("b@c", 2)
        .compute_pipeline("c", "a@b")
        .compute_pipeline("b@c", "a")
        .build(compile);
    let filed = handler.pipeline("a@b@c").unwrap();
    assert!(filed == "1:a@b:a@b@c" || filed == "2:a:a@b@c");
}

#[test]
fn shaders_are_handed_to_the_handler() {
    let handler = BufferHandlerBuilder::<PermitShaders, u32>::new()
        .shader("add", 1)
        .shader("unused", 9)
        .compute_pipeline("add", "main")
        .build(compile);
    assert_eq!(handler.shader("add"), Some(&1));
    assert_eq!(handler.shader("unused"), Some(&9));
}

#[test]
fn holder_starts_empty() {
    let mut holder: ComputePipeline<u32, String> = ComputePipeline::construct();
    assert_eq!(holder.get_pipeline(), None);
    assert_eq!(holder.get_layout(), None);
}

#[test]
fn holder_gives_out_what_was_put_in_once() {
    let mut holder: ComputePipeline<u32, String> = ComputePipeline::construct();
    holder.pipeline_layout("layout".to_string());
    holder.pipeline(3);
    assert_eq!(holder.get_layout(), Some("layout".to_string()));
    assert_eq!(holder.get_layout(), None);
    assert_eq!(holder.get_pipeline(), Some(3));
    assert_eq!(holder.get_pipeline(), None);
}

#[test]
fn holder_keeps_the_last_of_what_was_put_in() {
    let mut holder: ComputePipeline<u32, String> = ComputePipeline::construct();
    holder.pipeline(3);
    holder.pipeline(4);
    holder.pipeline_layout("first".to_string());
    holder.pipeline_layout("second".to_string());
    assert_eq!(holder.get_pipeline(), Some(4));
    assert_eq!(holder.get_layout(), Some("second".to_string()));
}

#[test]
fn uninitialized_pipeline_is_an_error_of_its_own() {
    let error = PipelineExecutionError::UninitializedPipeline;
    assert_eq!(error, PipelineExecutionError::UninitializedPipeline);
    assert_eq!(format!("{:?}", error), "UninitializedPipeline");
}

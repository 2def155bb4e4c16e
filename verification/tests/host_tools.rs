use monoloop_loop::json::JsonText;
use monoloop_loop::transaction::error::StartupError;
use monoloop_loop::transaction::host_tools::{
    AbortableAtYieldHandler, HostToolRegistry, ProcessIsolatedToolHandler, RegisteredTool,
    ToolCancellationPolicy, ToolExecutionClass, ToolHandler, ToolSpec,
};
use monoloop_loop::transaction::limits::ToolLimits;

const SECOND: u128 = 1_000_000_000;

fn plain_handler() -> ToolHandler {
    ToolHandler {
        handle: 1,
        supports_abort: false,
        supports_isolated_kill: false,
        os_process_isolated: false,
        runtime_owns_abortable_drive: false,
    }
}

fn driven_handler() -> AbortableAtYieldHandler {
    AbortableAtYieldHandler {
        handler: ToolHandler {
            supports_abort: true,
            runtime_owns_abortable_drive: true,
            ..plain_handler()
        },
    }
}

fn limits() -> ToolLimits {
    ToolLimits {
        max_input_bytes: 1024,
        max_output_bytes: 1024,
        max_concurrent: 1,
        execution_deadline: SECOND,
    }
}

fn spec(id: &str, class: ToolExecutionClass) -> ToolSpec {
    ToolSpec {
        id: String::from(id),
        name: String::from(id),
        description: String::from("a tool"),
        input_schema: JsonText::parse("{\"type\":\"object\"}").unwrap(),
        limits: limits(),
        execution_class: class,
        cancellation: ToolCancellationPolicy::Cooperative { grace: SECOND },
    }
}

fn abortable_spec() -> ToolSpec {
    ToolSpec {
        cancellation: ToolCancellationPolicy::Abortable,
        ..spec("a", ToolExecutionClass::AbortableAtYield { grace: SECOND })
    }
}

fn cooperative(id: &str) -> RegisteredTool {
    RegisteredTool::try_new(
        spec(id, ToolExecutionClass::CooperativeInProcess { grace: SECOND }),
        plain_handler(),
    )
    .ok()
    .unwrap()
}

#[test]
fn abortable_rejects_dyn_handler_path() {
    let forged = plain_handler();
    let err = RegisteredTool::try_new(abortable_spec(), forged).err().unwrap();
    let msg = err.message();
    assert!(
        msg.contains("try_new_abortable") || msg.contains("AbortableAtYield"),
        "got {msg}"
    );
}

#[test]
fn abortable_rejects_boolean_self_assert() {
    let liar = ToolHandler { supports_abort: true, ..plain_handler() };
    let err = RegisteredTool::try_new(abortable_spec(), liar).err().unwrap();
    let msg = err.message();
    assert!(
        msg.contains("try_new_abortable"),
        "boolean self-assert must not register: {msg}"
    );
}

#[test]
fn abortable_accepts_structural_handler() {
    let tool = RegisteredTool::try_new_abortable(abortable_spec(), driven_handler());
    assert!(tool.is_ok(), "structural AbortableAtYield ok");
}

#[test]
fn abortable_typed_api_rejects_wrong_class() {
    let cooperative = spec("c", ToolExecutionClass::CooperativeInProcess { grace: SECOND });
    let err = RegisteredTool::try_new_abortable(cooperative, driven_handler())
        .err()
        .unwrap();
    assert!(err.message().contains("AbortableAtYield"));
}

#[test]
fn isolated_tools_need_a_process_that_can_be_killed() {
    let class = ToolExecutionClass::ProcessIsolated { grace: SECOND };
    assert!(RegisteredTool::try_new(spec("p", class), plain_handler()).is_err());
    let weak = ProcessIsolatedToolHandler {
        handler: ToolHandler { os_process_isolated: true, ..plain_handler() },
    };
    assert!(RegisteredTool::try_new_process_isolated(spec("p", class), weak).is_err());
    let strong = ProcessIsolatedToolHandler {
        handler: ToolHandler {
            os_process_isolated: true,
            supports_isolated_kill: true,
            ..plain_handler()
        },
    };
    assert!(RegisteredTool::try_new_process_isolated(spec("p", class), strong).is_ok());
}

#[test]
fn registry_finds_tools_and_sorts_them() {
    let tools = vec![cooperative("b"), cooperative("a"), cooperative("Z")];
    let registry = HostToolRegistry::build(tools, 1024).ok().unwrap();
    assert_eq!(registry.len(), 3);
    assert!(!registry.is_empty());
    assert_eq!(registry.get(&String::from("a")).unwrap().spec().id, "a");
    assert!(registry.get(&String::from("c")).is_none());
    assert_eq!(registry.get_spec(&String::from("b")).unwrap().name, "b");
    assert_eq!(
        registry.id_for_name(&String::from("Z")),
        Some(&String::from("Z"))
    );
    let sorted: Vec<String> = registry.specs_sorted().iter().map(|s| s.id.clone()).collect();
    assert_eq!(sorted, vec!["Z", "a", "b"]);
}

#[test]
fn registry_refuses_repeated_tools() {
    let twice = HostToolRegistry::build(vec![cooperative("a"), cooperative("a")], 1024);
    assert!(matches!(twice, Err(StartupError::ToolRegistry(_))));
    let large = HostToolRegistry::build(vec![cooperative("a")], 3);
    assert!(large.is_err());
    assert!(HostToolRegistry::empty().is_empty());
}

#[test]
fn schemas_are_measured_as_they_are_sent() {
    let spaced = || {
        let class = ToolExecutionClass::CooperativeInProcess { grace: SECOND };
        let schema = JsonText::parse("{ \"type\" : \"object\" }").unwrap();
        assert_eq!(schema.as_str(), "{\"type\":\"object\"}");
        let spec = ToolSpec { input_schema: schema, ..spec("a", class) };
        RegisteredTool::try_new(spec, plain_handler()).ok().unwrap()
    };
    assert!(HostToolRegistry::build(vec![spaced()], 17).is_ok());
    assert!(HostToolRegistry::build(vec![spaced()], 16).is_err());
    assert!(JsonText::parse("{").is_none());
    assert_eq!(JsonText::empty_object(), JsonText::parse(" { } ").unwrap());
}

use agsi_core::protocol::{
    route, Route, Tool, INVALID_REQUEST, METHOD_NOT_FOUND, PARSE_ERROR, TOOL_FAILED,
};

const TOOLS: [(Tool, &str); 4] = [
    (Tool::Validate, "agsi_validate"),
    (Tool::ExtractMaterials, "agsi_extract_materials"),
    (Tool::GetInfo, "agsi_get_info"),
    (Tool::QueryMaterials, "agsi_query_materials"),
];

#[test]
fn tools_are_called_under_their_names() {
    for (tool, name) in TOOLS {
        assert_eq!(tool.name(), name);
        assert_eq!(Tool::from_name(name), Some(tool));
        assert_eq!(route(Some("tools/call"), name), Route::Call(tool));
    }
    assert_eq!(Tool::from_name("agsi_delete"), None);
    assert_eq!(Tool::from_name("AGSI_VALIDATE"), None);
    assert_eq!(Tool::from_name(""), None);
}

#[test]
fn requests_are_routed_by_method() {
    assert_eq!(route(Some("tools/list"), ""), Route::ListTools);
    assert_eq!(route(Some("tools/list"), "agsi_validate"), Route::ListTools);
    assert_eq!(route(Some("tools/call"), "agsi_delete"), Route::UnknownTool);
    assert_eq!(route(Some("tools/call"), ""), Route::UnknownTool);
    assert_eq!(route(Some("resources/list"), "agsi_validate"), Route::MethodNotFound);
    assert_eq!(route(Some(""), ""), Route::MethodNotFound);
    assert_eq!(route(None, "agsi_validate"), Route::InvalidRequest);
}

#[test]
fn error_codes_follow_the_route() {
    assert_eq!(Route::MethodNotFound.error_code(), Some(-32601));
    assert_eq!(Route::InvalidRequest.error_code(), Some(-32600));
    assert_eq!(Route::ListTools.error_code(), None);
    assert_eq!(Route::UnknownTool.error_code(), None);
    assert_eq!(Route::Call(Tool::GetInfo).error_code(), None);
    assert_eq!(
        (PARSE_ERROR, INVALID_REQUEST, METHOD_NOT_FOUND, TOOL_FAILED),
        (-32700, -32600, -32601, -32000)
    );
}

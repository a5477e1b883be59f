use ros3_stress::mcp::McpContent;
use ros3_stress::mcp::McpResponse;
use ros3_stress::mcp::McpTool;
use ros3_stress::node::ROS3Node;

#[test]
fn test_mcp_tool() {
    let tool = McpTool {
        name: "test".to_string(),
        description: "Test tool".to_string(),
        input_schema: serde_json::Value::Object(serde_json::Map::new()),
    };

    assert_eq!(tool.name, "test");
}

#[test]
fn test_node_creation() {
    let node = ROS3Node::new("test_node".to_string());
    assert_eq!(node.get_name(), "test_node");
}

#[test]
fn node_publish_and_version() {
    let node = ROS3Node::new("n".to_string());
    assert!(node.publish("topic", "data").is_ok());
    assert_eq!(ROS3Node::get_version(), "0.1.0");
}

#[test]
fn mcp_response_content() {
    let response = McpResponse {
        content: vec![
            McpContent::Text { text: "hello".to_string() },
            McpContent::Resource { uri: "res://x".to_string(), data: "payload".to_string() },
        ],
    };
    assert_eq!(response.content.len(), 2);
    match &response.content[0] {
        McpContent::Text { text } => assert_eq!(text, "hello"),
        McpContent::Resource { .. } => panic!("expected text content"),
    }
}

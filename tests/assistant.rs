use myssh::assistant::{chat_with_ai, get_ai_quick_actions, ChatWithAiParams, GetAiQuickActionsParams};

#[test]
fn reply_quotes_question() {
    let p = ChatWithAiParams { server_id: "a".to_string(), question: "disk full?".to_string(), history: vec![] };
    let r = chat_with_ai(&p, 1_700_000_000);
    assert_eq!(r.content, "这是对问题 \"disk full?\" 的模拟回复。\n实际实现中需要调用 AI 服务来生成回复。");
    assert_eq!(r.timestamp, 1_700_000_000);
}

#[test]
fn three_quick_actions() {
    let r = get_ai_quick_actions(&GetAiQuickActionsParams { server_id: "a".to_string() });
    let ids: Vec<&str> = r.actions.iter().map(|a| a.id.as_str()).collect();
    assert_eq!(ids, vec!["1", "2", "3"]);
    assert_eq!(r.actions[0].title, "查看系统状态");
    assert_eq!(r.actions[1].title, "检查磁盘空间");
    assert_eq!(r.actions[1].action, "检查磁盘空间");
    assert_eq!(r.actions[1].description, "检查服务器磁盘使用情况");
    assert_eq!(r.actions[2].description, "列出当前运行的进程");
    let other = get_ai_quick_actions(&GetAiQuickActionsParams { server_id: "b".to_string() });
    assert_eq!(other.actions[2].title, r.actions[2].title);
}

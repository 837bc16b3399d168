use vstd::prelude::*;

verus! {

pub struct ChatMessage {
    /// `user` or `assistant`.
    pub role: String,
    pub content: String,
    pub timestamp: Option<u64>,
}

pub struct ChatWithAiParams {
    pub server_id: String,
    pub question: String,
    pub history: Vec<ChatMessage>,
}

pub struct ChatWithAiResult {
    pub content: String,
    pub timestamp: u64,
}

pub struct QuickAction {
    pub id: String,
    pub title: String,
    pub description: String,
    pub action: String,
}

pub struct GetAiQuickActionsParams {
    pub server_id: String,
}

pub struct GetAiQuickActionsResult {
    pub actions: Vec<QuickAction>,
}

/// The reply given while no assistant service is configured: it quotes the
/// question and is stamped with `now`, in seconds since the Unix epoch.
pub fn chat_with_ai(params: &ChatWithAiParams, now: u64) -> (r: ChatWithAiResult)
    ensures
        r.content@ == "这是对问题 \""@ + params.question@ + "\" 的模拟回复。\n实际实现中需要调用 AI 服务来生成回复。"@,
        r.timestamp == now,
{
    let mut content = String::from_str("这是对问题 \"");
    content.append(params.question.as_str());
    content.append("\" 的模拟回复。\n实际实现中需要调用 AI 服务来生成回复。");
    ChatWithAiResult { content, timestamp: now }
}

fn quick_action(id: &str, title: &str, description: &str) -> (r: QuickAction)
    ensures
        r.id@ == id@,
        r.title@ == title@,
        r.description@ == description@,
        r.action@ == title@,
{
    QuickAction {
        id: String::from_str(id),
        title: String::from_str(title),
        description: String::from_str(description),
        action: String::from_str(title),
    }
}

/// The suggested actions, the same for every server: system status, disk
/// space and processes, in that order.
pub fn get_ai_quick_actions(_params: &GetAiQuickActionsParams) -> (r: GetAiQuickActionsResult)
    ensures
        r.actions@.len() == 3,
        r.actions@[0].id@ == "1"@ && r.actions@[0].title@ == "查看系统状态"@
            && r.actions@[0].description@ == "获取当前服务器的系统监控信息"@,
        r.actions@[1].id@ == "2"@ && r.actions@[1].title@ == "检查磁盘空间"@
            && r.actions@[1].description@ == "检查服务器磁盘使用情况"@,
        r.actions@[2].id@ == "3"@ && r.actions@[2].title@ == "查看运行进程"@
            && r.actions@[2].description@ == "列出当前运行的进程"@,
        forall|i: int| 0 <= i < 3 ==> (#[trigger] r.actions@[i]).action@ == r.actions@[i].title@,
{
    let mut actions: Vec<QuickAction> = Vec::new();
    actions.push(quick_action("1", "查看系统状态", "获取当前服务器的系统监控信息"));
    actions.push(quick_action("2", "检查磁盘空间", "检查服务器磁盘使用情况"));
    actions.push(quick_action("3", "查看运行进程", "列出当前运行的进程"));
    GetAiQuickActionsResult { actions }
}

} // verus!

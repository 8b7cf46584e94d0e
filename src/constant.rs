//! Service addresses and well-known topics.
use vstd::prelude::*;

verus! {

/// Where the connection endpoint is negotiated.
pub const GATEWAY_URL: &'static str = "https://api.dingtalk.com/v1.0/gateway/connections/open";

/// Where access tokens are issued.
pub const GET_TOKEN_URL: &'static str = "https://oapi.dingtalk.com/gettoken";

/// Topic of robot messages; register a callback listener on it.
pub const TOPIC_ROBOT: &'static str = "/v1.0/im/bot/messages/get";

/// Topic of interactive card callbacks.
pub const TOPIC_CARD: &'static str = "/v1.0/card/instances/callback";

/// Where one-on-one messages are sent, to one or more users.
pub const BATCH_SEND_URL: &'static str = "https://api.dingtalk.com/v1.0/robot/oToMessages/batchSend";

/// Where group messages are sent.
pub const GROUP_SEND_URL: &'static str = "https://api.dingtalk.com/v1.0/robot/groupMessages/send";

/// Where media is uploaded.
pub const UPLOAD_URL: &'static str = "https://oapi.dingtalk.com/media/upload";

/// Where a download code is exchanged for a download URL.
pub const DOWNLOAD_URL: &'static str = "https://api.dingtalk.com/v1.0/robot/messageFiles/download";

} // verus!

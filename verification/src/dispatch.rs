//! Commands for the lamp: the one request that each is sent as, and what the
//! caller is told once the request has been sent.

use vstd::prelude::*;
use crate::session::DeviceSession;
use crate::text::{join, joined, joined_holds_each_part, joined_pair, occurs_in, texts};

verus! {

/// How a request is made.
#[derive(Clone, Copy, Debug, PartialEq, Eq, Structural)]
pub enum Method {
    Get,
    Post,
}

/// One parameter of a query: its name and its value, both as they are to
/// stand in the query. A number is held as the text that it is written as.
#[derive(Debug, PartialEq, Eq)]
pub struct QueryParam {
    pub name: String,
    pub value: String,
}

/// A command that the lamp understands.
#[derive(Debug, PartialEq, Eq)]
pub enum Command {
    /// Asks the lamp how it is set.
    GetStatus,
    /// Sets the lamp's colour: each channel by name with its intensity, in
    /// the order in which they are to be sent.
    SendColor(Vec<QueryParam>),
    /// Starts the lamp's colour cycle.
    SendCycle,
    /// Puts the lamp back to how it was delivered.
    SendReset,
    /// Tells a lamp that is being set up which network to join.
    SendWifiCredentials { ssid: String, password: String },
}

/// The request that carries a command.
#[derive(Debug, PartialEq, Eq)]
pub struct CommandRequest {
    pub method: Method,
    pub host: String,
    pub path: String,
    /// The text behind the question mark; `None` where the request has no
    /// question mark.
    pub query: Option<String>,
}

/// What the caller of a command is told: on success the lamp's answer,
/// where the command asks for one; otherwise a message that says what
/// went wrong.
pub type Reply = Result<Option<String>, String>;

/// What is to be done once a request has been sent.
#[derive(Debug, PartialEq, Eq)]
pub enum Followup {
    /// The lamp's answer is to be read.
    ReadBody,
    /// The command is over, with this reply.
    Finished(Reply),
}

/// What a `QueryParam` holds: the name, then the value.
pub type ParamModel = (Seq<char>, Seq<char>);

/// What a `Command` holds.
pub ghost enum CommandModel {
    GetStatus,
    SendColor(Seq<ParamModel>),
    SendCycle,
    SendReset,
    SendWifiCredentials { ssid: Seq<char>, password: Seq<char> },
}

/// What a `CommandRequest` holds.
pub ghost struct RequestModel {
    pub method: Method,
    pub host: Seq<char>,
    pub path: Seq<char>,
    pub query: Option<Seq<char>>,
}

/// What a `Reply` holds.
pub type ReplyModel = Result<Option<Seq<char>>, Seq<char>>;

/// What a `Followup` holds.
pub ghost enum FollowupModel {
    ReadBody,
    Finished(ReplyModel),
}

impl View for QueryParam {
    type V = ParamModel;

    open spec fn view(&self) -> ParamModel {
        (self.name@, self.value@)
    }
}

/// The parameters of a list, each by what it holds.
pub open spec fn param_models(params: Seq<QueryParam>) -> Seq<ParamModel> {
    params.map_values(|p: QueryParam| p@)
}

impl View for Command {
    type V = CommandModel;

    open spec fn view(&self) -> CommandModel {
        match self {
            Command::GetStatus => CommandModel::GetStatus,
            Command::SendColor(components) => CommandModel::SendColor(param_models(components@)),
            Command::SendCycle => CommandModel::SendCycle,
            Command::SendReset => CommandModel::SendReset,
            Command::SendWifiCredentials { ssid, password } => CommandModel::SendWifiCredentials {
                ssid: ssid@,
                password: password@,
            },
        }
    }
}

impl View for CommandRequest {
    type V = RequestModel;

    open spec fn view(&self) -> RequestModel {
        RequestModel {
            method: self.method,
            host: self.host@,
            path: self.path@,
            query: match self.query {
                Some(q) => Some(q@),
                None => None,
            },
        }
    }
}

/// A reply, by what it holds.
pub open spec fn reply_of(reply: Reply) -> ReplyModel {
    match reply {
        Ok(Some(body)) => Ok(Some(body@)),
        Ok(None) => Ok(None),
        Err(message) => Err(message@),
    }
}

impl View for Followup {
    type V = FollowupModel;

    open spec fn view(&self) -> FollowupModel {
        match self {
            Followup::ReadBody => FollowupModel::ReadBody,
            Followup::Finished(reply) => FollowupModel::Finished(reply_of(*reply)),
        }
    }
}

/// What a sending that may have failed holds.
pub open spec fn sending_of(sent: Result<(), String>) -> Result<(), Seq<char>> {
    match sent {
        Ok(_) => Ok(()),
        Err(detail) => Err(detail@),
    }
}

/// What a reading that may have failed holds.
pub open spec fn reading_of(read: Result<String, String>) -> Result<Seq<char>, Seq<char>> {
    match read {
        Ok(body) => Ok(body@),
        Err(detail) => Err(detail@),
    }
}

/// The address of a lamp that is being set up. Such a lamp opens a network
/// of its own and is found there, never by discovery.
pub open spec fn provisioning_host() -> Seq<char> {
    "192.168.71.1"@
}

/// One parameter as it stands in a query: name, equals sign, value. Nothing
/// is escaped.
pub open spec fn pair_text(param: ParamModel) -> Seq<char> {
    param.0 + "="@ + param.1
}

/// The parameters as they stand in a query, one by one.
pub open spec fn pair_texts(params: Seq<ParamModel>) -> Seq<Seq<char>> {
    params.map_values(|p: ParamModel| pair_text(p))
}

/// The query made of the parameters in their order, with an ampersand
/// between each two.
pub open spec fn query_text(params: Seq<ParamModel>) -> Seq<char> {
    joined(pair_texts(params), "&"@)
}

/// The parameters that name a network and its password.
pub open spec fn credential_params(ssid: Seq<char>, password: Seq<char>) -> Seq<ParamModel> {
    seq![("ssid"@, ssid), ("password"@, password)]
}

/// The request that carries `command` to the lamp found at `address`.
pub open spec fn request_for(command: CommandModel, address: Seq<char>) -> RequestModel {
    match command {
        CommandModel::GetStatus => RequestModel {
            method: Method::Get,
            host: address,
            path: "/status"@,
            query: None,
        },
        CommandModel::SendColor(components) => RequestModel {
            method: Method::Post,
            host: address,
            path: "/set"@,
            query: Some(query_text(components)),
        },
        CommandModel::SendCycle => RequestModel {
            method: Method::Get,
            host: address,
            path: "/cycle"@,
            query: None,
        },
        CommandModel::SendReset => RequestModel {
            method: Method::Post,
            host: address,
            path: "/reset"@,
            query: None,
        },
        CommandModel::SendWifiCredentials { ssid, password } => RequestModel {
            method: Method::Get,
            host: provisioning_host(),
            path: "/connect"@,
            query: Some(query_text(credential_params(ssid, password))),
        },
    }
}

/// The address that a request is sent to, written out.
pub open spec fn url_text(request: RequestModel) -> Seq<char> {
    "http://"@ + request.host + request.path + match request.query {
        Some(q) => "?"@ + q,
        None => Seq::empty(),
    }
}

/// Whether the lamp's answer to a command is handed to the caller.
pub open spec fn answer_wanted(command: CommandModel) -> bool {
    command is GetStatus || command is SendCycle
}

/// What is said when a command's request could not be sent, before the detail.
pub open spec fn send_failure_prefix(command: CommandModel) -> Seq<char> {
    match command {
        CommandModel::GetStatus => "Failed to get status from lamp: "@,
        CommandModel::SendColor(_) => "Failed to send color to the lamp: "@,
        CommandModel::SendCycle => "Failed to send cycle command: "@,
        CommandModel::SendReset => "Failed to send cycle: "@,
        CommandModel::SendWifiCredentials { .. } => "Failed to send wifi credentials: "@,
    }
}

/// What is said when the lamp's answer could not be read, before the detail.
pub open spec fn read_failure_prefix() -> Seq<char> {
    "Failed to read text response: "@
}

/// What follows the sending of a command's request. A request that could
/// not be sent ends the command with a message. One that was sent ends it
/// with success, unless the command wants the lamp's answer: that is read
/// next.
pub open spec fn followup_for(command: CommandModel, sent: Result<(), Seq<char>>) -> FollowupModel {
    match sent {
        Err(detail) => FollowupModel::Finished(Err(send_failure_prefix(command) + detail)),
        Ok(_) => if answer_wanted(command) {
            FollowupModel::ReadBody
        } else {
            FollowupModel::Finished(Ok(None))
        },
    }
}

/// The reply after the lamp's answer was read, or could not be.
pub open spec fn reply_for(read: Result<Seq<char>, Seq<char>>) -> ReplyModel {
    match read {
        Ok(body) => Ok(Some(body)),
        Err(detail) => Err(read_failure_prefix() + detail),
    }
}

/// The query made of `params` in their order.
pub fn query_string(params: &Vec<QueryParam>) -> (query: String)
    ensures
        query@ == query_text(param_models(params@)),
{
    let mut pairs: Vec<String> = Vec::new();
    let mut i: usize = 0;
    while i < params.len()
        invariant
            i <= params.len(),
            texts(pairs@) == pair_texts(param_models(params@).take(i as int)),
        decreases params.len() - i,
    {
        let mut pair = params[i].name.clone();
        pair.append("=");
        pair.append(params[i].value.as_str());
        let ghost before = pairs@;
        pairs.push(pair);
        proof {
            let upto = param_models(params@).take(i as int + 1);
            assert(upto.drop_last() =~= param_models(params@).take(i as int));
            assert(upto.last() == params@[i as int]@);
            assert(texts(pairs@) =~= texts(before).push(pair@));
            assert(pair_texts(upto) =~= pair_texts(upto.drop_last()).push(pair_text(upto.last())));
        }
        i += 1;
    }
    proof {
        assert(param_models(params@).take(params.len() as int) =~= param_models(params@));
    }
    join(pairs, "&")
}

impl Command {
    /// The request that carries this command. The lamp is addressed as the
    /// session has it, with nothing asked of that address; only the
    /// credentials for a lamp that is being set up go to the fixed address
    /// of such a lamp, whatever the session holds.
    pub fn request(&self, session: &DeviceSession) -> (request: CommandRequest)
        ensures
            request@ == request_for(self@, session@),
    {
        match self {
            Command::GetStatus => CommandRequest {
                method: Method::Get,
                host: session.get(),
                path: String::from_str("/status"),
                query: None,
            },
            Command::SendColor(components) => CommandRequest {
                method: Method::Post,
                host: session.get(),
                path: String::from_str("/set"),
                query: Some(query_string(components)),
            },
            Command::SendCycle => CommandRequest {
                method: Method::Get,
                host: session.get(),
                path: String::from_str("/cycle"),
                query: None,
            },
            Command::SendReset => CommandRequest {
                method: Method::Post,
                host: session.get(),
                path: String::from_str("/reset"),
                query: None,
            },
            Command::SendWifiCredentials { ssid, password } => {
                let mut params: Vec<QueryParam> = Vec::new();
                params.push(QueryParam { name: String::from_str("ssid"), value: ssid.clone() });
                params.push(
                    QueryParam { name: String::from_str("password"), value: password.clone() },
                );
                proof {
                    assert(param_models(params@) =~= credential_params(ssid@, password@));
                }
                CommandRequest {
                    method: Method::Get,
                    host: String::from_str("192.168.71.1"),
                    path: String::from_str("/connect"),
                    query: Some(query_string(&params)),
                }
            },
        }
    }

    /// Whether the lamp's answer to this command is handed to the caller.
    pub fn wants_answer(&self) -> (wanted: bool)
        ensures
            wanted == answer_wanted(self@),
    {
        match self {
            Command::GetStatus => true,
            Command::SendCycle => true,
            _ => false,
        }
    }

    /// Decides what follows the sending of this command's request: `sent`
    /// is `Ok` where the request went out and an answer came back, and
    /// otherwise holds the detail of what went wrong.
    pub fn after_send(&self, sent: Result<(), String>) -> (next: Followup)
        ensures
            next@ == followup_for(self@, sending_of(sent)),
    {
        match sent {
            Err(detail) => {
                let mut message = match self {
                    Command::GetStatus => String::from_str("Failed to get status from lamp: "),
                    Command::SendColor(_) => String::from_str("Failed to send color to the lamp: "),
                    Command::SendCycle => String::from_str("Failed to send cycle command: "),
                    Command::SendReset => String::from_str("Failed to send cycle: "),
                    Command::SendWifiCredentials { .. } => String::from_str(
                        "Failed to send wifi credentials: ",
                    ),
                };
                message.append(detail.as_str());
                Followup::Finished(Err(message))
            },
            Ok(_) => {
                if self.wants_answer() {
                    Followup::ReadBody
                } else {
                    Followup::Finished(Ok(None))
                }
            },
        }
    }
}

/// The reply to a command whose answer was to be read: the answer, or,
/// where it could not be read, a message with the detail of that.
pub fn after_read(read: Result<String, String>) -> (reply: Reply)
    ensures
        reply_of(reply) == reply_for(reading_of(read)),
{
    match read {
        Ok(body) => Ok(Some(body)),
        Err(detail) => {
            let mut message = String::from_str("Failed to read text response: ");
            message.append(detail.as_str());
            Err(message)
        },
    }
}

impl CommandRequest {
    /// The address that the request is sent to, written out: the scheme,
    /// the host, the path and, where the request has a query, a question
    /// mark and the query.
    pub fn url(&self) -> (url: String)
        ensures
            url@ == url_text(self@),
    {
        let mut url = String::from_str("http://");
        url.append(self.host.as_str());
        url.append(self.path.as_str());
        match &self.query {
            Some(q) => {
                url.append("?");
                url.append(q.as_str());
                assert(url@ =~= url_text(self@));
            },
            None => {
                assert(url@ =~= url_text(self@));
            },
        }
        url
    }
}

/// Each parameter stands in the query as its name, an equals sign and its
/// value, wherever in the order it was handed in.
pub proof fn query_holds_each_pair(params: Seq<ParamModel>, i: int)
    requires
        0 <= i < params.len(),
    ensures
        occurs_in(query_text(params), pair_text(params[i])),
{
    joined_holds_each_part(pair_texts(params), "&"@, i);
}

/// A query of two parameters is the first, an ampersand and the second.
pub proof fn query_of_two(first: ParamModel, second: ParamModel)
    ensures
        query_text(seq![first, second]) == pair_text(first) + "&"@ + pair_text(second),
{
    assert(pair_texts(seq![first, second]) =~= seq![pair_text(first), pair_text(second)]);
    joined_pair(pair_text(first), pair_text(second), "&"@);
}

/// A colour is sent as one request: posted to `/set` at the address that
/// the session holds, with every component in its query.
pub proof fn color_is_posted_to_session(components: Seq<ParamModel>, address: Seq<char>, i: int)
    requires
        0 <= i < components.len(),
    ensures
        request_for(CommandModel::SendColor(components), address).method == Method::Post,
        request_for(CommandModel::SendColor(components), address).host == address,
        request_for(CommandModel::SendColor(components), address).path == "/set"@,
        request_for(CommandModel::SendColor(components), address).query == Some(
            query_text(components),
        ),
        occurs_in(query_text(components), pair_text(components[i])),
{
    query_holds_each_pair(components, i);
}

/// The credentials for a lamp that is being set up go to that lamp's fixed
/// address, whatever the session holds, with the network's name before its
/// password.
pub proof fn credentials_bypass_session(
    ssid: Seq<char>,
    password: Seq<char>,
    address: Seq<char>,
    other: Seq<char>,
)
    ensures
        request_for(CommandModel::SendWifiCredentials { ssid, password }, address) == request_for(
            CommandModel::SendWifiCredentials { ssid, password },
            other,
        ),
        request_for(CommandModel::SendWifiCredentials { ssid, password }, address).host
            == provisioning_host(),
        request_for(CommandModel::SendWifiCredentials { ssid, password }, address).query == Some(
            "ssid="@ + ssid + "&password="@ + password,
        ),
{
    reveal_strlit("ssid");
    reveal_strlit("password");
    reveal_strlit("=");
    reveal_strlit("&");
    reveal_strlit("ssid=");
    reveal_strlit("&password=");
    query_of_two(("ssid"@, ssid), ("password"@, password));
    assert(query_text(credential_params(ssid, password)) =~= "ssid="@ + ssid + "&password="@
        + password);
}

/// Every command but the credentials is addressed to the host that the
/// session holds, empty or not.
pub proof fn commands_go_to_session_address(command: CommandModel, address: Seq<char>)
    requires
        !(command is SendWifiCredentials),
    ensures
        request_for(command, address).host == address,
{
}

} // verus!

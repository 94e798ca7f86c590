use vstd::prelude::*;
use crate::json::{
    lemma_members_of, lemma_trees_of, members_of, parsed, printed, tree_of, trees_of, JsonMember,
    JsonTree, JsonValue,
};
use crate::peer::{hyphenated, uuid_parse, PeerId};

verus! {

broadcast use {vstd::seq::group_seq_axioms, vstd::std_specs::vec::group_vec_axioms};

/// One ICE server that a client is told to use.
#[derive(Debug, PartialEq, Eq)]
pub struct IceServerConfig {
    pub urls: Vec<String>,
    pub username: Option<String>,
    pub credential: Option<String>,
}

/// An ICE server as a mathematical value.
pub struct IceServer {
    pub urls: Seq<Seq<char>>,
    pub username: Option<Seq<char>>,
    pub credential: Option<Seq<char>>,
}

/// The characters of a text that may be absent.
pub open spec fn text_of(text: Option<String>) -> Option<Seq<char>> {
    match text {
        Some(text) => Some(text@),
        None => None,
    }
}

/// The characters of each text.
pub open spec fn texts_of(texts: Seq<String>) -> Seq<Seq<char>> {
    texts.map_values(|text: String| text@)
}

impl View for IceServerConfig {
    type V = IceServer;

    open spec fn view(&self) -> IceServer {
        IceServer {
            urls: texts_of(self.urls@),
            username: text_of(self.username),
            credential: text_of(self.credential),
        }
    }
}

impl IceServerConfig {
    /// Whether the server names at least one URL.
    pub open spec fn well_formed(self) -> bool {
        self.urls@.len() > 0
    }

    /// Whether the server names at least one URL.
    pub fn is_well_formed(&self) -> (valid: bool)
        ensures
            valid == self.well_formed(),
    {
        self.urls.len() > 0
    }

    /// A copy of the configuration.
    pub fn duplicate(&self) -> (copy: IceServerConfig)
        ensures
            copy@ == self@,
    {
        IceServerConfig {
            urls: copy_texts(&self.urls),
            username: copy_text(&self.username),
            credential: copy_text(&self.credential),
        }
    }
}

impl Clone for IceServerConfig {
    fn clone(&self) -> (copy: IceServerConfig)
        ensures
            copy@ == self@,
    {
        self.duplicate()
    }
}

/// The servers as mathematical values.
pub open spec fn servers_of(servers: Seq<IceServerConfig>) -> Seq<IceServer> {
    servers.map_values(|server: IceServerConfig| server@)
}

/// One frame of the signalling protocol.
#[derive(Debug, PartialEq, Eq)]
pub enum SignalMessage {
    /// Server to client, once, right after the session opened.
    IceConfig { ice_servers: Vec<IceServerConfig> },
    /// Client to server: selects the room, creating it if need be.
    Join { room: String, token: Option<String> },
    /// Client to server: starts the handshake.
    Offer { sdp: String },
    /// Server to client: the response to an offer.
    Answer { sdp: String },
    /// Either way: one trickled candidate.
    IceCandidate { candidate: String, sdp_mid: Option<String>, sdp_m_line_index: Option<u16> },
    /// Server to client: acknowledges the join.
    Welcome { peer_id: PeerId },
}

/// A frame of the signalling protocol as a mathematical value.
pub enum SignalFrame {
    IceConfig { ice_servers: Seq<IceServer> },
    Join { room: Seq<char>, token: Option<Seq<char>> },
    Offer { sdp: Seq<char> },
    Answer { sdp: Seq<char> },
    IceCandidate {
        candidate: Seq<char>,
        sdp_mid: Option<Seq<char>>,
        sdp_m_line_index: Option<u16>,
    },
    Welcome { peer_id: PeerId },
}

impl View for SignalMessage {
    type V = SignalFrame;

    open spec fn view(&self) -> SignalFrame {
        match *self {
            SignalMessage::IceConfig { ice_servers } => SignalFrame::IceConfig {
                ice_servers: servers_of(ice_servers@),
            },
            SignalMessage::Join { room, token } => SignalFrame::Join {
                room: room@,
                token: text_of(token),
            },
            SignalMessage::Offer { sdp } => SignalFrame::Offer { sdp: sdp@ },
            SignalMessage::Answer { sdp } => SignalFrame::Answer { sdp: sdp@ },
            SignalMessage::IceCandidate {
                candidate,
                sdp_mid,
                sdp_m_line_index,
            } => SignalFrame::IceCandidate {
                candidate: candidate@,
                sdp_mid: text_of(sdp_mid),
                sdp_m_line_index,
            },
            SignalMessage::Welcome { peer_id } => SignalFrame::Welcome { peer_id },
        }
    }
}

// ---------------------------------------------------------------------
// The wire form: how a frame is laid out as a JSON document.
// ---------------------------------------------------------------------

/// A text that may be absent: the string, or `null`.
pub open spec fn optional_text_tree(text: Option<Seq<char>>) -> JsonTree {
    match text {
        Some(text) => JsonTree::String(text),
        None => JsonTree::Null,
    }
}

/// A 16-bit index that may be absent: the number, or `null`.
pub open spec fn optional_index_tree(index: Option<u16>) -> JsonTree {
    match index {
        Some(index) => JsonTree::Unsigned(index as u64),
        None => JsonTree::Null,
    }
}

/// Each text as a JSON string.
pub open spec fn text_trees(texts: Seq<Seq<char>>) -> Seq<JsonTree> {
    texts.map_values(|text: Seq<char>| JsonTree::String(text))
}

/// An ICE server as the object `{urls, username, credential}`.
pub open spec fn server_tree(server: IceServer) -> JsonTree {
    JsonTree::Object(
        seq![
            ("urls"@, JsonTree::Array(text_trees(server.urls))),
            ("username"@, optional_text_tree(server.username)),
            ("credential"@, optional_text_tree(server.credential)),
        ],
    )
}

/// Each server as its object.
pub open spec fn server_trees(servers: Seq<IceServer>) -> Seq<JsonTree> {
    servers.map_values(|server: IceServer| server_tree(server))
}

impl SignalFrame {
    /// The discriminator of the frame: what stands under `"op"`.
    pub open spec fn op(self) -> Seq<char> {
        match self {
            SignalFrame::IceConfig { .. } => "IceConfig"@,
            SignalFrame::Join { .. } => "Join"@,
            SignalFrame::Offer { .. } => "Offer"@,
            SignalFrame::Answer { .. } => "Answer"@,
            SignalFrame::IceCandidate { .. } => "IceCandidate"@,
            SignalFrame::Welcome { .. } => "Welcome"@,
        }
    }

    /// The payload of the frame: the object that stands under `"d"`.
    pub open spec fn payload(self) -> JsonTree {
        match self {
            SignalFrame::IceConfig { ice_servers } => JsonTree::Object(
                seq![("ice_servers"@, JsonTree::Array(server_trees(ice_servers)))],
            ),
            SignalFrame::Join { room, token } => JsonTree::Object(
                seq![("room"@, JsonTree::String(room)), ("token"@, optional_text_tree(token))],
            ),
            SignalFrame::Offer { sdp } => JsonTree::Object(seq![("sdp"@, JsonTree::String(sdp))]),
            SignalFrame::Answer { sdp } => JsonTree::Object(seq![("sdp"@, JsonTree::String(sdp))]),
            SignalFrame::IceCandidate { candidate, sdp_mid, sdp_m_line_index } => JsonTree::Object(
                seq![
                    ("candidate"@, JsonTree::String(candidate)),
                    ("sdp_mid"@, optional_text_tree(sdp_mid)),
                    ("sdp_m_line_index"@, optional_index_tree(sdp_m_line_index)),
                ],
            ),
            SignalFrame::Welcome { peer_id } => JsonTree::Object(
                seq![("peer_id"@, JsonTree::String(hyphenated(peer_id.0)))],
            ),
        }
    }

    /// The frame as a JSON document: the object `{"op": .., "d": ..}`.
    pub open spec fn to_tree(self) -> JsonTree {
        JsonTree::Object(seq![("op"@, JsonTree::String(self.op())), ("d"@, self.payload())])
    }

    /// The frame that a JSON document denotes.
    ///
    /// The document is an object with a string under `"op"` that names one
    /// of the six frames, and an object under `"d"` with the members of that
    /// frame. Members that the frame does not have are passed over. A
    /// member marked optional may be missing or `null`. `None` for any other
    /// document.
    pub open spec fn from_tree(tree: JsonTree) -> Option<SignalFrame> {
        match (tree.member("op"@), tree.member("d"@)) {
            (Some(JsonTree::String(op)), Some(payload)) => SignalFrame::from_payload(op, payload),
            _ => None,
        }
    }

    /// The frame with the discriminator `op` that a payload denotes.
    pub open spec fn from_payload(op: Seq<char>, payload: JsonTree) -> Option<SignalFrame> {
        if !(payload is Object) {
            None
        } else if op == "IceConfig"@ {
            match payload.member("ice_servers"@) {
                Some(JsonTree::Array(items)) => match servers_from(items) {
                    Some(ice_servers) => Some(SignalFrame::IceConfig { ice_servers }),
                    None => None,
                },
                _ => None,
            }
        } else if op == "Join"@ {
            match (required_text(payload, "room"@), optional_text(payload, "token"@)) {
                (Some(room), Some(token)) => Some(SignalFrame::Join { room, token }),
                _ => None,
            }
        } else if op == "Offer"@ {
            match required_text(payload, "sdp"@) {
                Some(sdp) => Some(SignalFrame::Offer { sdp }),
                None => None,
            }
        } else if op == "Answer"@ {
            match required_text(payload, "sdp"@) {
                Some(sdp) => Some(SignalFrame::Answer { sdp }),
                None => None,
            }
        } else if op == "IceCandidate"@ {
            match (
                required_text(payload, "candidate"@),
                optional_text(payload, "sdp_mid"@),
                optional_index(payload, "sdp_m_line_index"@),
            ) {
                (Some(candidate), Some(sdp_mid), Some(sdp_m_line_index)) => Some(
                    SignalFrame::IceCandidate { candidate, sdp_mid, sdp_m_line_index },
                ),
                _ => None,
            }
        } else if op == "Welcome"@ {
            match required_text(payload, "peer_id"@) {
                Some(text) => match uuid_parse(text) {
                    Some(value) => Some(SignalFrame::Welcome { peer_id: PeerId(value) }),
                    None => None,
                },
                None => None,
            }
        } else {
            None
        }
    }
}

impl SignalFrame {
    /// The frame that a JSON text denotes: the frame of the document that
    /// the text holds. `None` for a text that is no JSON and for a document
    /// that denotes no frame.
    pub open spec fn from_text(text: Seq<char>) -> Option<SignalFrame> {
        match parsed(text) {
            Some(tree) => SignalFrame::from_tree(tree),
            None => None,
        }
    }

    /// The JSON text of the frame: the text of its document.
    pub open spec fn to_text(self) -> Option<Seq<char>> {
        printed(self.to_tree())
    }
}

/// The string that an object holds under a name; `None` where it holds
/// none.
pub open spec fn required_text(payload: JsonTree, name: Seq<char>) -> Option<Seq<char>> {
    match payload.member(name) {
        Some(JsonTree::String(text)) => Some(text),
        _ => None,
    }
}

/// The string that an object may hold under a name: `Some(None)` where the
/// member is missing or `null`, and `None` where it is anything but a
/// string.
pub open spec fn optional_text(payload: JsonTree, name: Seq<char>) -> Option<Option<Seq<char>>> {
    match payload.member(name) {
        None => Some(None),
        Some(JsonTree::Null) => Some(None),
        Some(JsonTree::String(text)) => Some(Some(text)),
        _ => None,
    }
}

/// The 16-bit index that an object may hold under a name: `Some(None)`
/// where the member is missing or `null`, and `None` where it is anything
/// but an integer from 0 to 65535.
pub open spec fn optional_index(payload: JsonTree, name: Seq<char>) -> Option<Option<u16>> {
    match payload.member(name) {
        None => Some(None),
        Some(JsonTree::Null) => Some(None),
        Some(JsonTree::Unsigned(number)) => if number <= 0xffff {
            Some(Some(number as u16))
        } else {
            None
        },
        _ => None,
    }
}

/// The texts that an array of strings holds; `None` where an item is no
/// string.
pub open spec fn texts_from(items: Seq<JsonTree>) -> Option<Seq<Seq<char>>>
    decreases items.len(),
{
    if items.len() == 0 {
        Some(Seq::empty())
    } else {
        match (texts_from(items.drop_last()), items.last()) {
            (Some(texts), JsonTree::String(text)) => Some(texts.push(text)),
            _ => None,
        }
    }
}

/// The ICE server that a document denotes: an object with an array of
/// strings under `"urls"` and, optionally, strings under `"username"` and
/// `"credential"`.
pub open spec fn server_from(tree: JsonTree) -> Option<IceServer> {
    match (
        tree.member("urls"@),
        optional_text(tree, "username"@),
        optional_text(tree, "credential"@),
    ) {
        (Some(JsonTree::Array(items)), Some(username), Some(credential)) => match texts_from(
            items,
        ) {
            Some(urls) => Some(IceServer { urls, username, credential }),
            None => None,
        },
        _ => None,
    }
}

/// The ICE servers that an array denotes; `None` where an item denotes
/// none.
pub open spec fn servers_from(items: Seq<JsonTree>) -> Option<Seq<IceServer>>
    decreases items.len(),
{
    if items.len() == 0 {
        Some(Seq::empty())
    } else {
        match (servers_from(items.drop_last()), server_from(items.last())) {
            (Some(servers), Some(server)) => Some(servers.push(server)),
            _ => None,
        }
    }
}

// ---------------------------------------------------------------------
// Reading back what was written.
// ---------------------------------------------------------------------

/// The names that stand side by side in one object differ, and the six
/// discriminators differ in length.
proof fn lemma_names_differ()
    ensures
        "op"@ != "d"@,
        "room"@ != "token"@,
        "candidate"@ != "sdp_mid"@,
        "candidate"@ != "sdp_m_line_index"@,
        "sdp_mid"@ != "sdp_m_line_index"@,
        "urls"@ != "username"@,
        "urls"@ != "credential"@,
        "username"@ != "credential"@,
        "IceConfig"@.len() == 9,
        "Join"@.len() == 4,
        "Offer"@.len() == 5,
        "Answer"@.len() == 6,
        "IceCandidate"@.len() == 12,
        "Welcome"@.len() == 7,
{
    reveal_strlit("op");
    reveal_strlit("d");
    reveal_strlit("room");
    reveal_strlit("token");
    reveal_strlit("candidate");
    reveal_strlit("sdp_mid");
    reveal_strlit("sdp_m_line_index");
    reveal_strlit("urls");
    reveal_strlit("username");
    reveal_strlit("credential");
    reveal_strlit("IceConfig");
    reveal_strlit("Join");
    reveal_strlit("Offer");
    reveal_strlit("Answer");
    reveal_strlit("IceCandidate");
    reveal_strlit("Welcome");
    assert("op"@.len() == 2 && "d"@.len() == 1);
    assert("room"@.len() == 4 && "token"@.len() == 5);
    assert("candidate"@.len() == 9 && "sdp_mid"@.len() == 7 && "sdp_m_line_index"@.len() == 16);
    assert("urls"@.len() == 4 && "username"@.len() == 8 && "credential"@.len() == 10);
}

proof fn lemma_find_second(members: Seq<(Seq<char>, JsonTree)>)
    requires
        members.len() > 1,
        members[0].0 != members[1].0,
    ensures
        crate::json::find_member(members, members[1].0) == Some(members[1].1),
{
    reveal_with_fuel(crate::json::find_member, 3);
}

proof fn lemma_find_third(members: Seq<(Seq<char>, JsonTree)>)
    requires
        members.len() > 2,
        members[0].0 != members[2].0,
        members[1].0 != members[2].0,
    ensures
        crate::json::find_member(members, members[2].0) == Some(members[2].1),
{
    reveal_with_fuel(crate::json::find_member, 4);
}

proof fn lemma_texts_read_back(texts: Seq<Seq<char>>)
    ensures
        texts_from(text_trees(texts)) == Some(texts),
    decreases texts.len(),
{
    if texts.len() > 0 {
        assert(text_trees(texts).drop_last() =~= text_trees(texts.drop_last()));
        lemma_texts_read_back(texts.drop_last());
    } else {
    }
}

proof fn lemma_server_reads_back(server: IceServer)
    ensures
        server_from(server_tree(server)) == Some(server),
{
    lemma_names_differ();
    let members = server_tree(server)->Object_0;
    lemma_find_second(members);
    lemma_find_third(members);
    lemma_texts_read_back(server.urls);
}

proof fn lemma_servers_read_back(servers: Seq<IceServer>)
    ensures
        servers_from(server_trees(servers)) == Some(servers),
    decreases servers.len(),
{
    if servers.len() > 0 {
        assert(server_trees(servers).drop_last() =~= server_trees(servers.drop_last()));
        lemma_servers_read_back(servers.drop_last());
        lemma_server_reads_back(servers.last());
    } else {
    }
}

/// Writing a frame and reading it back gives the frame.
///
/// The JSON document of any frame denotes that frame again. Of a `Welcome`
/// this holds given that the UUID parser reads the hyphenated text of the
/// peer's identifier back as the identifier, which `PeerId::to_string`
/// establishes for any identifier it is called on.
pub proof fn lemma_frame_reads_back(frame: SignalFrame)
    requires
        frame matches SignalFrame::Welcome { peer_id } ==> uuid_parse(hyphenated(peer_id.0))
            == Some(peer_id.0),
    ensures
        SignalFrame::from_tree(frame.to_tree()) == Some(frame),
{
    lemma_names_differ();
    let outer = frame.to_tree()->Object_0;
    lemma_find_second(outer);
    let members = frame.payload()->Object_0;
    match frame {
        SignalFrame::IceConfig { ice_servers } => {
            lemma_servers_read_back(ice_servers);
        },
        SignalFrame::Join { room, token } => {
            lemma_find_second(members);
        },
        SignalFrame::Offer { sdp } => {},
        SignalFrame::Answer { sdp } => {},
        SignalFrame::IceCandidate { candidate, sdp_mid, sdp_m_line_index } => {
            lemma_find_second(members);
            lemma_find_third(members);
        },
        SignalFrame::Welcome { peer_id } => {},
    }
}

// ---------------------------------------------------------------------
// The executable side.
// ---------------------------------------------------------------------

/// A copy of a text that may be absent.
pub fn copy_text(text: &Option<String>) -> (copy: Option<String>)
    ensures
        text_of(copy) == text_of(*text),
{
    match text {
        Some(text) => Some(text.clone()),
        None => None,
    }
}

/// A copy of the texts.
pub fn copy_texts(texts: &Vec<String>) -> (copy: Vec<String>)
    ensures
        texts_of(copy@) == texts_of(texts@),
{
    let mut copy: Vec<String> = Vec::new();
    let mut i: usize = 0;
    while i < texts.len()
        invariant
            i <= texts.len(),
            texts_of(copy@) == texts_of(texts@.take(i as int)),
        decreases texts.len() - i,
    {
        let text = texts[i].clone();
        copy.push(text);
        assert(texts_of(texts@.take(i + 1)) =~= texts_of(texts@.take(i as int)).push(
            texts@[i as int]@,
        ));
        i = i + 1;
    }
    copy
}

/// A copy of the servers.
pub fn copy_servers(servers: &Vec<IceServerConfig>) -> (copy: Vec<IceServerConfig>)
    ensures
        servers_of(copy@) == servers_of(servers@),
{
    let mut copy: Vec<IceServerConfig> = Vec::new();
    let mut i: usize = 0;
    while i < servers.len()
        invariant
            i <= servers.len(),
            servers_of(copy@) == servers_of(servers@.take(i as int)),
        decreases servers.len() - i,
    {
        let server = servers[i].duplicate();
        copy.push(server);
        assert(servers_of(servers@.take(i + 1)) =~= servers_of(servers@.take(i as int)).push(
            servers@[i as int]@,
        ));
        i = i + 1;
    }
    copy
}

pub(crate) fn member_of(name: &str, value: JsonValue) -> (member: JsonMember)
    ensures
        member.name@ == name@,
        member.value == value,
{
    JsonMember { name: name.to_owned(), value }
}

pub(crate) fn object_of_one(first: JsonMember) -> (object: JsonValue)
    ensures
        object@ == JsonTree::Object(seq![(first.name@, first.value@)]),
{
    let mut members: Vec<JsonMember> = Vec::new();
    members.push(first);
    proof {
        lemma_members_of(members@);
        assert(members_of(members@) =~= seq![(first.name@, first.value@)]);
    }
    JsonValue::Object(members)
}

pub(crate) fn object_of_two(first: JsonMember, second: JsonMember) -> (object: JsonValue)
    ensures
        object@ == JsonTree::Object(
            seq![(first.name@, first.value@), (second.name@, second.value@)],
        ),
{
    let mut members: Vec<JsonMember> = Vec::new();
    members.push(first);
    members.push(second);
    proof {
        lemma_members_of(members@);
        assert(members_of(members@) =~= seq![
            (first.name@, first.value@),
            (second.name@, second.value@),
        ]);
    }
    JsonValue::Object(members)
}

fn object_of_three(first: JsonMember, second: JsonMember, third: JsonMember) -> (object: JsonValue)
    ensures
        object@ == JsonTree::Object(
            seq![
                (first.name@, first.value@),
                (second.name@, second.value@),
                (third.name@, third.value@),
            ],
        ),
{
    let mut members: Vec<JsonMember> = Vec::new();
    members.push(first);
    members.push(second);
    members.push(third);
    proof {
        lemma_members_of(members@);
        assert(members_of(members@) =~= seq![
            (first.name@, first.value@),
            (second.name@, second.value@),
            (third.name@, third.value@),
        ]);
    }
    JsonValue::Object(members)
}

fn optional_text_value(text: &Option<String>) -> (value: JsonValue)
    ensures
        value@ == optional_text_tree(text_of(*text)),
{
    match text {
        Some(text) => JsonValue::String(text.clone()),
        None => JsonValue::Null,
    }
}

fn optional_index_value(index: Option<u16>) -> (value: JsonValue)
    ensures
        value@ == optional_index_tree(index),
{
    match index {
        Some(index) => JsonValue::Unsigned(index as u64),
        None => JsonValue::Null,
    }
}

fn texts_value(texts: &Vec<String>) -> (value: JsonValue)
    ensures
        value@ == JsonTree::Array(text_trees(texts_of(texts@))),
{
    let mut items: Vec<JsonValue> = Vec::new();
    let mut i: usize = 0;
    while i < texts.len()
        invariant
            i <= texts.len(),
            items@.len() == i,
            forall|k: int| 0 <= k < i ==> tree_of(#[trigger] items@[k]) == JsonTree::String(texts@[k]@),
        decreases texts.len() - i,
    {
        items.push(JsonValue::String(texts[i].clone()));
        i = i + 1;
    }
    proof {
        lemma_trees_of(items@);
        assert(trees_of(items@) =~= text_trees(texts_of(texts@)));
    }
    JsonValue::Array(items)
}

fn server_value(server: &IceServerConfig) -> (value: JsonValue)
    ensures
        value@ == server_tree(server@),
{
    object_of_three(
        member_of("urls", texts_value(&server.urls)),
        member_of("username", optional_text_value(&server.username)),
        member_of("credential", optional_text_value(&server.credential)),
    )
}

fn servers_value(servers: &Vec<IceServerConfig>) -> (value: JsonValue)
    ensures
        value@ == JsonTree::Array(server_trees(servers_of(servers@))),
{
    let mut items: Vec<JsonValue> = Vec::new();
    let mut i: usize = 0;
    while i < servers.len()
        invariant
            i <= servers.len(),
            items@.len() == i,
            forall|k: int| 0 <= k < i ==> tree_of(#[trigger] items@[k]) == server_tree(servers@[k]@),
        decreases servers.len() - i,
    {
        items.push(server_value(&servers[i]));
        i = i + 1;
    }
    proof {
        lemma_trees_of(items@);
        assert(trees_of(items@) =~= server_trees(servers_of(servers@)));
    }
    JsonValue::Array(items)
}

pub(crate) fn read_required_text(payload: &JsonValue, name: &str) -> (text: Option<String>)
    ensures
        text_of(text) == required_text(payload@, name@),
{
    match payload.member(name) {
        Some(JsonValue::String(text)) => Some(text.clone()),
        _ => None,
    }
}

pub(crate) fn read_optional_text(payload: &JsonValue, name: &str) -> (text: Option<Option<String>>)
    ensures
        match text {
            Some(text) => optional_text(payload@, name@) == Some(text_of(text)),
            None => optional_text(payload@, name@) is None,
        },
{
    match payload.member(name) {
        None => Some(None),
        Some(JsonValue::Null) => Some(None),
        Some(JsonValue::String(text)) => Some(Some(text.clone())),
        _ => None,
    }
}

pub(crate) fn read_optional_index(payload: &JsonValue, name: &str) -> (index: Option<Option<u16>>)
    ensures
        index == optional_index(payload@, name@),
{
    match payload.member(name) {
        None => Some(None),
        Some(JsonValue::Null) => Some(None),
        Some(JsonValue::Unsigned(number)) => {
            if *number <= 0xffff {
                Some(Some(*number as u16))
            } else {
                None
            }
        },
        _ => None,
    }
}

fn read_texts(items: &Vec<JsonValue>) -> (texts: Option<Vec<String>>)
    ensures
        match texts {
            Some(texts) => texts_from(trees_of(items@)) == Some(texts_of(texts@)),
            None => texts_from(trees_of(items@)) is None,
        },
{
    let ghost all = trees_of(items@);
    proof {
        lemma_trees_of(items@);
    }
    let mut texts: Vec<String> = Vec::new();
    let mut i: usize = 0;
    while i < items.len()
        invariant
            i <= items.len(),
            all == trees_of(items@),
            all.len() == items.len(),
            forall|k: int| 0 <= k < items.len() ==> #[trigger] all[k] == tree_of(items[k]),
            texts_from(all.take(i as int)) == Some(texts_of(texts@)),
        decreases items.len() - i,
    {
        assert(all.take(i + 1).drop_last() =~= all.take(i as int));
        match &items[i] {
            JsonValue::String(text) => {
                texts.push(text.clone());
            },
            _ => {
                proof {
                    lemma_texts_stay_unread(all, i + 1);
                }
                return None;
            },
        }
        i = i + 1;
    }
    assert(all.take(i as int) =~= all);
    Some(texts)
}

/// Where a front part of an array does not read as texts, the array does
/// not.
proof fn lemma_texts_stay_unread(items: Seq<JsonTree>, upto: int)
    requires
        0 <= upto <= items.len(),
        texts_from(items.take(upto)) is None,
    ensures
        texts_from(items) is None,
    decreases items.len(),
{
    if upto < items.len() {
        assert(items.drop_last().take(upto) =~= items.take(upto));
        lemma_texts_stay_unread(items.drop_last(), upto);
    } else {
        assert(items.take(upto) =~= items);
    }
}

/// Where a front part of an array does not read as servers, the array does
/// not.
proof fn lemma_servers_stay_unread(items: Seq<JsonTree>, upto: int)
    requires
        0 <= upto <= items.len(),
        servers_from(items.take(upto)) is None,
    ensures
        servers_from(items) is None,
    decreases items.len(),
{
    if upto < items.len() {
        assert(items.drop_last().take(upto) =~= items.take(upto));
        lemma_servers_stay_unread(items.drop_last(), upto);
    } else {
        assert(items.take(upto) =~= items);
    }
}

fn read_server(tree: &JsonValue) -> (server: Option<IceServerConfig>)
    ensures
        match server {
            Some(server) => server_from(tree@) == Some(server@),
            None => server_from(tree@) is None,
        },
{
    let urls = match tree.member("urls") {
        Some(JsonValue::Array(items)) => match read_texts(items) {
            Some(urls) => urls,
            None => {
                return None;
            },
        },
        _ => {
            return None;
        },
    };
    let username = match read_optional_text(tree, "username") {
        Some(username) => username,
        None => {
            return None;
        },
    };
    let credential = match read_optional_text(tree, "credential") {
        Some(credential) => credential,
        None => {
            return None;
        },
    };
    Some(IceServerConfig { urls, username, credential })
}

fn read_servers(items: &Vec<JsonValue>) -> (servers: Option<Vec<IceServerConfig>>)
    ensures
        match servers {
            Some(servers) => servers_from(trees_of(items@)) == Some(servers_of(servers@)),
            None => servers_from(trees_of(items@)) is None,
        },
{
    let ghost all = trees_of(items@);
    proof {
        lemma_trees_of(items@);
    }
    let mut servers: Vec<IceServerConfig> = Vec::new();
    let mut i: usize = 0;
    while i < items.len()
        invariant
            i <= items.len(),
            all == trees_of(items@),
            all.len() == items.len(),
            forall|k: int| 0 <= k < items.len() ==> #[trigger] all[k] == tree_of(items[k]),
            servers_from(all.take(i as int)) == Some(servers_of(servers@)),
        decreases items.len() - i,
    {
        assert(all.take(i + 1).drop_last() =~= all.take(i as int));
        match read_server(&items[i]) {
            Some(server) => {
                servers.push(server);
            },
            None => {
                proof {
                    lemma_servers_stay_unread(all, i + 1);
                }
                return None;
            },
        }
        i = i + 1;
    }
    assert(all.take(i as int) =~= all);
    Some(servers)
}

impl SignalMessage {
    /// A copy of the frame.
    pub fn duplicate(&self) -> (copy: SignalMessage)
        ensures
            copy@ == self@,
    {
        match self {
            SignalMessage::IceConfig { ice_servers } => SignalMessage::IceConfig {
                ice_servers: copy_servers(ice_servers),
            },
            SignalMessage::Join { room, token } => SignalMessage::Join {
                room: room.clone(),
                token: copy_text(token),
            },
            SignalMessage::Offer { sdp } => SignalMessage::Offer { sdp: sdp.clone() },
            SignalMessage::Answer { sdp } => SignalMessage::Answer { sdp: sdp.clone() },
            SignalMessage::IceCandidate {
                candidate,
                sdp_mid,
                sdp_m_line_index,
            } => SignalMessage::IceCandidate {
                candidate: candidate.clone(),
                sdp_mid: copy_text(sdp_mid),
                sdp_m_line_index: *sdp_m_line_index,
            },
            SignalMessage::Welcome { peer_id } => SignalMessage::Welcome { peer_id: *peer_id },
        }
    }

    /// Lays the frame out as a JSON document, which `from_tree` reads back
    /// as the same frame.
    pub fn to_tree(&self) -> (tree: JsonValue)
        ensures
            tree@ == self@.to_tree(),
            SignalFrame::from_tree(tree@) == Some(self@),
    {
        let (op, payload) = match self {
            SignalMessage::IceConfig { ice_servers } => (
                "IceConfig",
                object_of_one(member_of("ice_servers", servers_value(ice_servers))),
            ),
            SignalMessage::Join { room, token } => (
                "Join",
                object_of_two(
                    member_of("room", JsonValue::String(room.clone())),
                    member_of("token", optional_text_value(token)),
                ),
            ),
            SignalMessage::Offer { sdp } => (
                "Offer",
                object_of_one(member_of("sdp", JsonValue::String(sdp.clone()))),
            ),
            SignalMessage::Answer { sdp } => (
                "Answer",
                object_of_one(member_of("sdp", JsonValue::String(sdp.clone()))),
            ),
            SignalMessage::IceCandidate { candidate, sdp_mid, sdp_m_line_index } => (
                "IceCandidate",
                object_of_three(
                    member_of("candidate", JsonValue::String(candidate.clone())),
                    member_of("sdp_mid", optional_text_value(sdp_mid)),
                    member_of("sdp_m_line_index", optional_index_value(*sdp_m_line_index)),
                ),
            ),
            SignalMessage::Welcome { peer_id } => (
                "Welcome",
                object_of_one(member_of("peer_id", JsonValue::String(peer_id.to_string()))),
            ),
        };
        let tree = object_of_two(
            member_of("op", JsonValue::String(op.to_owned())),
            member_of("d", payload),
        );
        proof {
            lemma_frame_reads_back(self@);
        }
        tree
    }

    /// Reads the frame that a JSON document denotes; `None` where it
    /// denotes none.
    pub fn from_tree(tree: &JsonValue) -> (message: Option<SignalMessage>)
        ensures
            match message {
                Some(message) => SignalFrame::from_tree(tree@) == Some(message@),
                None => SignalFrame::from_tree(tree@) is None,
            },
    {
        let op = match tree.member("op") {
            Some(JsonValue::String(op)) => op,
            _ => {
                return None;
            },
        };
        let payload = match tree.member("d") {
            Some(payload) => payload,
            None => {
                return None;
            },
        };
        match payload {
            JsonValue::Object(_) => {},
            _ => {
                return None;
            },
        }
        if *op == "IceConfig".to_owned() {
            match payload.member("ice_servers") {
                Some(JsonValue::Array(items)) => match read_servers(items) {
                    Some(ice_servers) => Some(SignalMessage::IceConfig { ice_servers }),
                    None => None,
                },
                _ => None,
            }
        } else if *op == "Join".to_owned() {
            match (read_required_text(payload, "room"), read_optional_text(payload, "token")) {
                (Some(room), Some(token)) => Some(SignalMessage::Join { room, token }),
                _ => None,
            }
        } else if *op == "Offer".to_owned() {
            match read_required_text(payload, "sdp") {
                Some(sdp) => Some(SignalMessage::Offer { sdp }),
                None => None,
            }
        } else if *op == "Answer".to_owned() {
            match read_required_text(payload, "sdp") {
                Some(sdp) => Some(SignalMessage::Answer { sdp }),
                None => None,
            }
        } else if *op == "IceCandidate".to_owned() {
            match (
                read_required_text(payload, "candidate"),
                read_optional_text(payload, "sdp_mid"),
                read_optional_index(payload, "sdp_m_line_index"),
            ) {
                (Some(candidate), Some(sdp_mid), Some(sdp_m_line_index)) => Some(
                    SignalMessage::IceCandidate { candidate, sdp_mid, sdp_m_line_index },
                ),
                _ => None,
            }
        } else if *op == "Welcome".to_owned() {
            match read_required_text(payload, "peer_id") {
                Some(text) => match PeerId::parse(text.as_str()) {
                    Some(peer_id) => Some(SignalMessage::Welcome { peer_id }),
                    None => None,
                },
                None => None,
            }
        } else {
            None
        }
    }

    /// Writes the frame as a JSON text. `None` where the text cannot be
    /// written.
    pub fn to_json(&self) -> (text: Option<String>)
        ensures
            match text {
                Some(text) => self@.to_text() == Some(text@),
                None => self@.to_text() is None,
            },
    {
        self.to_tree().to_text()
    }

    /// Reads a frame from a JSON text; `None` for a malformed frame.
    pub fn from_json(text: &str) -> (message: Option<SignalMessage>)
        ensures
            match message {
                Some(message) => SignalFrame::from_text(text@) == Some(message@),
                None => SignalFrame::from_text(text@) is None,
            },
    {
        match JsonValue::parse(text) {
            Some(tree) => SignalMessage::from_tree(&tree),
            None => None,
        }
    }
}

} // verus!

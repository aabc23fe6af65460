//! The shared message and command vocabulary of the node kinds. The
//! protocol core never interprets any of this; it is carried here so every
//! node kind speaks one language. The embedder keeps a serializable copy of
//! the message type — serialization derives live on that copy, not here.

use crate::packet::Packet;
use crossbeam_channel::Sender;
use vstd::prelude::*;

verus! {

/// What a server offers: content, communication, or not yet decided.
#[derive(Clone, Debug, PartialEq, Eq, Structural)]
pub enum ServerType {
    Content,
    Communication,
    Undefined,
}

/// The messages clients and servers exchange on top of the packet layer.
/// For every variant the first field is the sender's node id.
#[derive(Clone, Debug)]
pub enum SerializableMessage {
    Default,
    /// Asks a server what it offers.
    ServerTypeRequest(u8),
    /// Answers with the server's kind.
    ServerTypeResponse(u8, ServerType),
    /// Asks a content server for its file list.
    FileListRequest(u8),
    /// Answers with the list of file names.
    FileListResponse(u8, Vec<String>),
    /// Asks for a file by name.
    FileRequest(u8, String),
    /// Answers with the file's name and its contents.
    FileFound(u8, String, String),
    /// Asks a communication server to register the sending client.
    RegisterToCommunicationServer(u8),
    /// Confirms a registration.
    RegisterSuccess(u8),
    /// Asks a communication server for its client list.
    ClientListRequest(u8),
    /// Answers with the registered clients.
    ClientListResponse(u8, Vec<u8>),
    /// A chat line: sender, the server it travels through, the recipient,
    /// and the text.
    Chat(u8, u8, u8, String),
    /// An error line from a server.
    ErrorMessage(u8, String),
}

impl Default for SerializableMessage {
    /// The default message is the `Default` variant.
    fn default() -> (r: Self)
        ensures
            r is Default,
    {
        SerializableMessage::Default
    }
}

/// Runtime reconfiguration commands a client accepts.
pub enum ClientCommand {
    ServerTypeRequest(u8),
    AllServerTypesRequest(),
    FileListRequest(u8),
    FileRequest(u8, String),
    RegisterToCommunicationServer(u8),
    Chat(u8, u8, String),
    ClientListRequest(u8),
    SendPacket(Packet),
    RemoveSender(u8),
    AddSender(u8, Sender<Packet>),
}

/// Runtime reconfiguration commands a server accepts.
pub enum ServerCommand {
    RemoveSender(u8),
    AddSender(u8, Sender<Packet>),
    SetServerType(ServerType),
}

} // verus!

//! Which handler of a scene each network event goes to.
use crate::client::{ClientEvent, ClientEventView};
use crate::id::{IDView, ID};
use crate::packet::{GamePhase, InputState, InputStep, InputStepView, Packet, PacketView};
use crate::peer::DisconnectReason;
use crate::server::{ServerEvent, ServerEventView};
use crate::sync_checker::SyncState;
use vstd::prelude::*;

verus! {

/// The client-side handler an event is meant for, with its arguments.
pub enum ClientNotice {
    PlayerConnect(ID),
    PlayerDisconnect(u16, DisconnectReason),
    ConnectionLost(DisconnectReason),
    ChatMessage(String, u16),
    InputStep(InputStep),
    GamePhaseChanged(GamePhase),
    EstablishConnection,
    Nothing,
}

pub enum ClientNoticeView {
    PlayerConnect(IDView),
    PlayerDisconnect(u16, DisconnectReason),
    ConnectionLost(DisconnectReason),
    ChatMessage(Seq<char>, u16),
    InputStep(InputStepView),
    GamePhaseChanged(GamePhase),
    EstablishConnection,
    Nothing,
}

impl View for ClientNotice {
    type V = ClientNoticeView;

    open spec fn view(&self) -> ClientNoticeView {
        match self {
            ClientNotice::PlayerConnect(id) => ClientNoticeView::PlayerConnect(id@),
            ClientNotice::PlayerDisconnect(s, r) => ClientNoticeView::PlayerDisconnect(*s, *r),
            ClientNotice::ConnectionLost(r) => ClientNoticeView::ConnectionLost(*r),
            ClientNotice::ChatMessage(m, s) => ClientNoticeView::ChatMessage(m@, *s),
            ClientNotice::InputStep(step) => ClientNoticeView::InputStep(step@),
            ClientNotice::GamePhaseChanged(p) => ClientNoticeView::GamePhaseChanged(*p),
            ClientNotice::EstablishConnection => ClientNoticeView::EstablishConnection,
            ClientNotice::Nothing => ClientNoticeView::Nothing,
        }
    }
}

/// Where a client event goes: a newcomer's announcement, a departure (the
/// host's departure ends the match for everyone), chat, steps and phase
/// changes to their handlers; a connection and its loss to theirs;
/// anything else nowhere.
pub open spec fn client_notice_for(ev: ClientEventView) -> ClientNoticeView {
    match ev {
        ClientEventView::ReceivePacket(sender, p) => match p {
            PacketView::PlayerConnect { name } => ClientNoticeView::PlayerConnect(
                IDView { name, n: sender },
            ),
            PacketView::PlayerDisconnect { reason } => if sender == 0 {
                ClientNoticeView::ConnectionLost(DisconnectReason::HostShutdown)
            } else {
                ClientNoticeView::PlayerDisconnect(sender, reason)
            },
            PacketView::ChatMessage { message } => ClientNoticeView::ChatMessage(message, sender),
            PacketView::InputStep { step } => ClientNoticeView::InputStep(step),
            PacketView::Game { phase } => ClientNoticeView::GamePhaseChanged(phase),
            _ => ClientNoticeView::Nothing,
        },
        ClientEventView::Connect(_) => ClientNoticeView::EstablishConnection,
        ClientEventView::Disconnect(reason) => ClientNoticeView::ConnectionLost(reason),
        ClientEventView::Empty => ClientNoticeView::Nothing,
    }
}

pub fn route_client_event(ev: ClientEvent) -> (n: ClientNotice)
    ensures
        n@ == client_notice_for(ev@),
{
    match ev {
        ClientEvent::ReceivePacket(sender, packet) => match packet {
            Packet::PlayerConnect { name } => ClientNotice::PlayerConnect(ID::new(name, sender)),
            Packet::PlayerDisconnect { reason } => {
                if sender == 0 {
                    ClientNotice::ConnectionLost(DisconnectReason::HostShutdown)
                } else {
                    ClientNotice::PlayerDisconnect(sender, reason)
                }
            },
            Packet::ChatMessage { message } => ClientNotice::ChatMessage(message, sender),
            Packet::InputStep { step } => ClientNotice::InputStep(step),
            Packet::Game { phase } => ClientNotice::GamePhaseChanged(phase),
            _ => ClientNotice::Nothing,
        },
        ClientEvent::Connect(_) => ClientNotice::EstablishConnection,
        ClientEvent::Disconnect(reason) => ClientNotice::ConnectionLost(reason),
        ClientEvent::Empty => ClientNotice::Nothing,
    }
}

/// The host-side handler an event is meant for, with its arguments.
pub enum ServerNotice {
    Handshake(ID),
    Disconnect(u16, DisconnectReason),
    ChatMessage(u16, String),
    Input(u16, InputState),
    SetGamePhase(u16, GamePhase),
    SyncState(u16, SyncState),
    Nothing,
}

pub enum ServerNoticeView {
    Handshake(IDView),
    Disconnect(u16, DisconnectReason),
    ChatMessage(u16, Seq<char>),
    Input(u16, InputState),
    SetGamePhase(u16, GamePhase),
    SyncState(u16, SyncState),
    Nothing,
}

impl View for ServerNotice {
    type V = ServerNoticeView;

    open spec fn view(&self) -> ServerNoticeView {
        match self {
            ServerNotice::Handshake(id) => ServerNoticeView::Handshake(id@),
            ServerNotice::Disconnect(s, r) => ServerNoticeView::Disconnect(*s, *r),
            ServerNotice::ChatMessage(s, m) => ServerNoticeView::ChatMessage(*s, m@),
            ServerNotice::Input(s, st) => ServerNoticeView::Input(*s, *st),
            ServerNotice::SetGamePhase(s, p) => ServerNoticeView::SetGamePhase(*s, *p),
            ServerNotice::SyncState(s, st) => ServerNoticeView::SyncState(*s, *st),
            ServerNotice::Nothing => ServerNoticeView::Nothing,
        }
    }
}

/// Where a host event goes: chat, inputs, phase requests and sync reports
/// to their handlers, newcomers and departures to theirs, anything else
/// nowhere.
pub open spec fn server_notice_for(ev: ServerEventView) -> ServerNoticeView {
    match ev {
        ServerEventView::ReceivePacket(sender, p) => match p {
            PacketView::ChatMessage { message } => ServerNoticeView::ChatMessage(sender, message),
            PacketView::Input { state } => ServerNoticeView::Input(sender, state),
            PacketView::Game { phase } => ServerNoticeView::SetGamePhase(sender, phase),
            PacketView::Sync { state } => ServerNoticeView::SyncState(sender, state),
            _ => ServerNoticeView::Nothing,
        },
        ServerEventView::PlayerConnect(id) => ServerNoticeView::Handshake(id),
        ServerEventView::PlayerDisconnect(sender, reason) => ServerNoticeView::Disconnect(
            sender,
            reason,
        ),
        ServerEventView::Empty => ServerNoticeView::Nothing,
    }
}

pub fn route_server_event(ev: ServerEvent) -> (n: ServerNotice)
    ensures
        n@ == server_notice_for(ev@),
{
    match ev {
        ServerEvent::ReceivePacket(sender, packet) => match packet {
            Packet::ChatMessage { message } => ServerNotice::ChatMessage(sender, message),
            Packet::Input { state } => ServerNotice::Input(sender, state),
            Packet::Game { phase } => ServerNotice::SetGamePhase(sender, phase),
            Packet::Sync { state } => ServerNotice::SyncState(sender, state),
            _ => ServerNotice::Nothing,
        },
        ServerEvent::PlayerConnect(id) => ServerNotice::Handshake(id),
        ServerEvent::PlayerDisconnect(sender, reason) => ServerNotice::Disconnect(sender, reason),
        ServerEvent::Empty => ServerNotice::Nothing,
    }
}

} // verus!

//! The Telegram user client (MTProto): its sign-in state machine, the data it
//! hands out, and how the update state of its session evolves.
use crate::text::{decimal_text, owned, push_char, push_decimal};
use vstd::prelude::*;

verus! {

/// Where the sign-in of the Telegram user stands.
#[derive(Clone, Debug)]
pub enum AuthState {
    Disconnected,
    WaitingCode { phone: String },
    Connected { user_id: i64, username: String },
}

/// Why a sign-in with a code failed, as the client reports it.
pub enum SignInFailure {
    PasswordRequired,
    InvalidCode,
    Other { reason: String },
}

/// The username as stored: the empty string when the account has none.
pub open spec fn stored_username(username: Option<Seq<char>>) -> Seq<char> {
    match username {
        Some(u) => u,
        None => Seq::empty(),
    }
}

/// The message that reports a successful sign-in.
pub open spec fn signed_in_text(user_id: int, username: Option<Seq<char>>) -> Seq<char> {
    "Connected as "@ + match username {
        Some(u) => u,
        None => "unknown"@,
    } + " (id: "@ + decimal_text(user_id) + seq![')']
}

/// The view of an optional string.
pub open spec fn opt_text(s: Option<&str>) -> Option<Seq<char>> {
    match s {
        Some(t) => Some(t@),
        None => None,
    }
}

impl AuthState {
    /// The state before anything happened, and after a disconnection.
    pub fn disconnected() -> (r: AuthState)
        ensures
            r is Disconnected,
    {
        AuthState::Disconnected
    }

    /// The state after a login code was sent to `phone`.
    pub fn waiting_code(phone: &str) -> (r: AuthState)
        ensures
            r matches AuthState::WaitingCode { phone: p } && p@ == phone@,
    {
        AuthState::WaitingCode { phone: owned(phone) }
    }

    /// The state once signed in as `user_id`, keeping the username or the empty
    /// string when there is none.
    pub fn signed_in(user_id: i64, username: Option<&str>) -> (r: AuthState)
        ensures
            r matches AuthState::Connected { user_id: id, username: name } && id == user_id
                && name@ == stored_username(opt_text(username)),
    {
        let name = match username {
            Some(u) => owned(u),
            None => String::new(),
        };
        AuthState::Connected { user_id, username: name }
    }

    /// The phone number a code was requested for, which a sign-in needs: only
    /// while waiting for the code.
    pub fn code_phone(&self) -> (r: Result<String, String>)
        ensures
            *self matches AuthState::WaitingCode { phone } ==> r == Ok::<String, String>(phone),
            !(self is WaitingCode) ==> (r matches Err(e) && e@
                == "No code requested. Call request_code first."@),
    {
        match self {
            AuthState::WaitingCode { phone } => Ok(phone.clone()),
            _ => Err(String::from_str("No code requested. Call request_code first.")),
        }
    }

    /// The error of an operation that needs the client, before `connect`.
    pub fn not_connected_error() -> (r: String)
        ensures
            r@ == "Client not connected. Call connect() first."@,
    {
        String::from_str("Client not connected. Call connect() first.")
    }

    /// The error of reading dialogs or sending, before `connect`.
    pub fn no_client_error() -> (r: String)
        ensures
            r@ == "Client not connected."@,
    {
        String::from_str("Client not connected.")
    }

    /// The error of sending to a chat that is not among the dialogs.
    pub fn chat_not_found_error() -> (r: String)
        ensures
            r@ == "Chat not found in dialogs"@,
    {
        String::from_str("Chat not found in dialogs")
    }
}

/// The message reporting a successful sign-in:
/// `Connected as <username or "unknown"> (id: <user id>)`.
pub fn signed_in_message(user_id: i64, username: Option<&str>) -> (r: String)
    ensures
        r@ == signed_in_text(user_id as int, opt_text(username)),
{
    let mut s = String::from_str("Connected as ");
    match username {
        Some(u) => s.append(u),
        None => s.append("unknown"),
    }
    s.append(" (id: ");
    push_decimal(&mut s, user_id as i128);
    push_char(&mut s, ')');
    s
}

impl SignInFailure {
    /// What the user is told when the sign-in failed.
    pub fn message(&self) -> (r: String)
        ensures
            self is PasswordRequired ==> r@
                == "Two-factor authentication required. Not yet supported."@,
            self is InvalidCode ==> r@ == "Invalid code. Please try again."@,
            self matches SignInFailure::Other { reason } ==> r@ == "Sign in failed: "@ + reason@,
    {
        match self {
            SignInFailure::PasswordRequired => String::from_str(
                "Two-factor authentication required. Not yet supported.",
            ),
            SignInFailure::InvalidCode => String::from_str("Invalid code. Please try again."),
            SignInFailure::Other { reason } => {
                let mut s = String::from_str("Sign in failed: ");
                s.append(reason.as_str());
                s
            },
        }
    }
}

/// The text a failed sign-in reports.
pub open spec fn failure_text(f: SignInFailure) -> Seq<char> {
    match f {
        SignInFailure::PasswordRequired => "Two-factor authentication required. Not yet supported."@,
        SignInFailure::InvalidCode => "Invalid code. Please try again."@,
        SignInFailure::Other { reason } => "Sign in failed: "@ + reason@,
    }
}

impl AuthState {
    /// Takes note of how a sign-in with a code ended: a signed-in user becomes
    /// the state and is reported; a failure leaves the state as it was and is
    /// reported as an error.
    pub fn after_sign_in(&mut self, outcome: Result<(i64, Option<&str>), SignInFailure>) -> (r:
        Result<String, String>)
        ensures
            outcome matches Ok((user_id, username)) ==> {
                &&& *final(self) matches AuthState::Connected { user_id: id, username: name }
                &&& id == user_id
                &&& name@ == stored_username(opt_text(username))
                &&& r matches Ok(m) && m@ == signed_in_text(user_id as int, opt_text(username))
            },
            outcome matches Err(f) ==> {
                &&& *final(self) == *old(self)
                &&& r matches Err(m) && m@ == failure_text(f)
            },
    {
        match outcome {
            Ok((user_id, username)) => {
                *self = AuthState::signed_in(user_id, username);
                Ok(signed_in_message(user_id, username))
            },
            Err(f) => Err(f.message()),
        }
    }
}

/// A chat of the signed-in user.
pub struct DialogInfo {
    pub chat_id: i64,
    pub title: String,
    pub last_message: Option<String>,
}

impl DialogInfo {
    /// A dialog with the peer's name as title, or "Unknown" when it has none.
    pub fn from_peer(chat_id: i64, name: Option<&str>, last_message: Option<String>) -> (r:
        DialogInfo)
        ensures
            r.chat_id == chat_id,
            r.title@ == (match name {
                Some(n) => n@,
                None => "Unknown"@,
            }),
            r.last_message == last_message,
    {
        let title = match name {
            Some(n) => owned(n),
            None => String::from_str("Unknown"),
        };
        DialogInfo { chat_id, title, last_message }
    }
}

/// The update state of one channel.
#[derive(Clone, Copy, Debug, PartialEq, Eq, Structural)]
pub struct ChannelState {
    pub id: i64,
    pub pts: i32,
}

/// The update state a session keeps: the account's counters and each known
/// channel's.
pub struct UpdatesState {
    pub pts: i32,
    pub qts: i32,
    pub date: i32,
    pub seq: i32,
    pub channels: Vec<ChannelState>,
}

/// A change to the update state.
pub enum UpdateState {
    All { state: UpdatesState },
    Primary { pts: i32, date: i32, seq: i32 },
    Secondary { qts: i32 },
    Channel { id: i64, pts: i32 },
}

/// `channels` without the entries of channel `id`, in order.
pub open spec fn without_channel(channels: Seq<ChannelState>, id: i64) -> Seq<ChannelState>
    decreases channels.len(),
{
    if channels.len() == 0 {
        channels
    } else {
        let rest = without_channel(channels.drop_last(), id);
        if channels.last().id == id {
            rest
        } else {
            rest.push(channels.last())
        }
    }
}

/// No entry of `without_channel(channels, id)` belongs to channel `id`, and
/// each of them was in `channels`.
pub proof fn lemma_without_channel(channels: Seq<ChannelState>, id: i64)
    ensures
        forall|k: int|
            0 <= k < without_channel(channels, id).len() ==> #[trigger] without_channel(
                channels,
                id,
            )[k].id != id && channels.contains(without_channel(channels, id)[k]),
    decreases channels.len(),
{
    if channels.len() > 0 {
        let init = channels.drop_last();
        lemma_without_channel(init, id);
        let w = without_channel(channels, id);
        assert forall|k: int| 0 <= k < w.len() implies #[trigger] w[k].id != id && channels.contains(
            w[k],
        ) by {
            let wi = without_channel(init, id);
            if k < wi.len() {
                assert(w[k] == wi[k]);
                assert(0 <= k < without_channel(init, id).len());
                assert(without_channel(init, id)[k].id != id);
                assert(init.contains(without_channel(init, id)[k]));
                let j = choose|j: int| 0 <= j < init.len() && init[j] == wi[k];
                assert(channels[j] == init[j]);
            } else {
                assert(channels[channels.len() - 1] == channels.last());
            }
        }
    }
}

impl UpdatesState {
    /// Applies a change: the whole state is replaced, or the primary counters,
    /// or the secondary one; a channel's state replaces whatever entries that
    /// channel had and goes last, the other channels keeping their order.
    pub fn apply(&mut self, change: UpdateState)
        ensures
            match change {
                UpdateState::All { state } => *final(self) == state,
                UpdateState::Primary { pts, date, seq } => {
                    &&& final(self).pts == pts
                    &&& final(self).date == date
                    &&& final(self).seq == seq
                    &&& final(self).qts == old(self).qts
                    &&& final(self).channels@ == old(self).channels@
                },
                UpdateState::Secondary { qts } => {
                    &&& final(self).qts == qts
                    &&& final(self).pts == old(self).pts
                    &&& final(self).date == old(self).date
                    &&& final(self).seq == old(self).seq
                    &&& final(self).channels@ == old(self).channels@
                },
                UpdateState::Channel { id, pts } => {
                    &&& final(self).channels@ == without_channel(old(self).channels@, id).push(
                        ChannelState { id, pts },
                    )
                    &&& final(self).pts == old(self).pts
                    &&& final(self).qts == old(self).qts
                    &&& final(self).date == old(self).date
                    &&& final(self).seq == old(self).seq
                },
            },
    {
        match change {
            UpdateState::All { state } => {
                *self = state;
            },
            UpdateState::Primary { pts, date, seq } => {
                self.pts = pts;
                self.date = date;
                self.seq = seq;
            },
            UpdateState::Secondary { qts } => {
                self.qts = qts;
            },
            UpdateState::Channel { id, pts } => {
                let ghost orig = self.channels@;
                let mut kept: Vec<ChannelState> = Vec::new();
                let mut i: usize = 0;
                while i < self.channels.len()
                    invariant
                        i <= self.channels@.len(),
                        self.channels@ == orig,
                        kept@ == without_channel(orig.take(i as int), id),
                    decreases self.channels@.len() - i,
                {
                    let c = self.channels[i];
                    assert(orig.take(i + 1).drop_last() =~= orig.take(i as int));
                    if c.id != id {
                        kept.push(c);
                    }
                    i = i + 1;
                }
                assert(orig.take(orig.len() as int) =~= orig);
                kept.push(ChannelState { id, pts });
                self.channels = kept;
            },
        }
    }
}

/// After a channel's state is applied, the session knows exactly one state for
/// that channel, the new one, and every other channel it knew keeps its state.
pub proof fn lemma_channel_update(channels: Seq<ChannelState>, id: i64, pts: i32)
    ensures
        ({
            let after = without_channel(channels, id).push(ChannelState { id, pts });
            &&& after.last() == ChannelState { id, pts }
            &&& forall|k: int| 0 <= k < after.len() - 1 ==> #[trigger] after[k].id != id
            &&& forall|c: ChannelState| #[trigger] channels.contains(c) && c.id != id ==> after.contains(c)
        }),
    decreases channels.len(),
{
    lemma_without_channel(channels, id);
    let after = without_channel(channels, id).push(ChannelState { id, pts });
    assert forall|k: int| 0 <= k < after.len() - 1 implies #[trigger] after[k].id != id by {
        assert(after[k] == without_channel(channels, id)[k]);
    }
    assert forall|c: ChannelState| #[trigger] channels.contains(c) && c.id != id implies after.contains(c) by {
        lemma_kept_channel(channels, id, c);
        let j = choose|j: int| 0 <= j < without_channel(channels, id).len() && without_channel(channels, id)[j] == c;
        assert(after[j] == c);
    }
}

/// A channel other than `id` is kept by `without_channel`.
proof fn lemma_kept_channel(channels: Seq<ChannelState>, id: i64, c: ChannelState)
    requires
        channels.contains(c),
        c.id != id,
    ensures
        without_channel(channels, id).contains(c),
    decreases channels.len(),
{
    let init = channels.drop_last();
    if channels.last() == c {
        assert(without_channel(channels, id).last() == c);
    } else {
        let j = choose|j: int| 0 <= j < channels.len() && channels[j] == c;
        assert(init[j] == c);
        lemma_kept_channel(init, id, c);
        let k = choose|k: int| 0 <= k < without_channel(init, id).len() && without_channel(init, id)[k] == c;
        if channels.last().id != id {
            assert(without_channel(channels, id)[k] == c);
        }
    }
}

} // verus!

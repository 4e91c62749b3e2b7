use vstd::prelude::*;
use crate::types::RouterError;
use crate::routing::RecvSelector;

verus! {

/// The tag that a response to a request sent with `t` carries.
pub open spec fn response_tag(t: mctp::Tag) -> mctp::Tag {
    match t {
        mctp::Tag::Owned(v) => mctp::Tag::Unowned(v),
        mctp::Tag::Unowned(v) => mctp::Tag::Unowned(v),
    }
}

/// The state of a request channel to one peer: the tag its first send
/// was given, and whether that tag expires.
pub struct ReqChannelState {
    eid: mctp::Eid,
    sent_tag: Option<mctp::Tag>,
    tag_expires: bool,
}

impl ReqChannelState {
    pub closed spec fn peer(&self) -> mctp::Eid {
        self.eid
    }

    pub closed spec fn sent(&self) -> Option<mctp::Tag> {
        self.sent_tag
    }

    pub closed spec fn expires(&self) -> bool {
        self.tag_expires
    }

    /// A channel to `eid` that has sent nothing, with an expiring tag.
    pub fn new(eid: mctp::Eid) -> (r: ReqChannelState)
        ensures
            r.peer() == eid,
            r.sent() is None,
            r.expires(),
    {
        ReqChannelState { eid, sent_tag: None, tag_expires: true }
    }

    /// Keeps the tag from expiring, so that it can be sent on more than
    /// once. Only allowed before the first send: after it, `BadArgument`.
    pub fn tag_noexpire(&mut self) -> (r: Result<(), RouterError>)
        ensures
            r == (if old(self).sent() is Some {
                Err(RouterError::BadArgument)
            } else {
                Ok(())
            }),
            r is Err ==> *final(self) == *old(self),
            r is Ok ==> final(self).peer() == old(self).peer() && final(self).sent() is None
                && !final(self).expires(),
    {
        if self.sent_tag.is_some() {
            return Err(RouterError::BadArgument);
        }
        self.tag_expires = false;
        Ok(())
    }

    /// The peer, the tag to send with (`None` before the first send, when
    /// the stack allocates one), and whether it expires.
    pub fn send_args(&self) -> (r: (mctp::Eid, Option<mctp::Tag>, bool))
        ensures
            r == (self.peer(), self.sent(), self.expires()),
    {
        (self.eid, self.sent_tag, self.tag_expires)
    }

    /// Records the tag that a successful send used.
    pub fn record_sent(&mut self, tag: mctp::Tag)
        ensures
            final(self).peer() == old(self).peer(),
            final(self).expires() == old(self).expires(),
            final(self).sent() == Some(tag),
    {
        self.sent_tag = Some(tag);
    }

    /// What a receive on this channel waits for: the response tag that
    /// matches the sent tag, from the peer.
    ///
    /// Receiving before a send, or after one that gave no owned tag, is
    /// `BadArgument`.
    pub fn recv_selector(&self) -> (r: Result<RecvSelector, RouterError>)
        ensures
            r is Ok <==> self.sent() matches Some(mctp::Tag::Owned(_)),
            r is Err ==> r->Err_0 == RouterError::BadArgument,
            r is Ok ==> r->Ok_0 == RecvSelector::TagEid(
                response_tag(self.sent()->0),
                self.peer(),
            ),
    {
        match self.sent_tag {
            Some(mctp::Tag::Owned(tv)) => Ok(RecvSelector::TagEid(mctp::Tag::Unowned(tv), self.eid)),
            _ => Err(RouterError::BadArgument),
        }
    }

    /// The flow to release before the channel goes away: only a sent,
    /// owned tag that does not expire needs it.
    pub fn release_args(&self) -> (r: Option<(mctp::Eid, mctp::TagValue)>)
        ensures
            r == (match self.sent() {
                Some(mctp::Tag::Owned(tv)) => if !self.expires() {
                    Some((self.peer(), tv))
                } else {
                    None
                },
                _ => None,
            }),
    {
        if self.tag_expires {
            return None;
        }
        match self.sent_tag {
            Some(mctp::Tag::Owned(tv)) => Some((self.eid, tv)),
            _ => None,
        }
    }

    /// Whether dropping the channel now leaves a non-expiring tag held.
    pub fn leaks_tag(&self) -> (r: bool)
        ensures
            r == (!self.expires() && self.sent() is Some),
    {
        !self.tag_expires && self.sent_tag.is_some()
    }

    /// The peer of the channel.
    pub fn remote_eid(&self) -> (r: mctp::Eid)
        ensures
            r == self.peer(),
    {
        self.eid
    }
}

/// The state of a response channel: the peer that sent a request, the tag
/// it owns, and the message type to answer with.
pub struct RespChannelState {
    eid: mctp::Eid,
    tv: mctp::TagValue,
    typ: mctp::MsgType,
}

impl RespChannelState {
    pub closed spec fn peer(&self) -> mctp::Eid {
        self.eid
    }

    pub closed spec fn tag_value(&self) -> mctp::TagValue {
        self.tv
    }

    pub closed spec fn msg_type(&self) -> mctp::MsgType {
        self.typ
    }

    /// The response channel for a request delivered to a listener.
    ///
    /// A listener only gets requests, whose tag the peer owns: any other
    /// tag is `InternalError`.
    pub fn from_request(eid: mctp::Eid, tag: mctp::Tag, typ: mctp::MsgType) -> (r: Result<
        RespChannelState,
        RouterError,
    >)
        ensures
            r is Ok <==> tag is Owned,
            r is Err ==> r->Err_0 == RouterError::InternalError,
            r is Ok ==> r->Ok_0.peer() == eid && tag == mctp::Tag::Owned(r->Ok_0.tag_value())
                && r->Ok_0.msg_type() == typ,
    {
        match tag {
            mctp::Tag::Owned(tv) => Ok(RespChannelState { eid, tv, typ }),
            mctp::Tag::Unowned(_) => Err(RouterError::InternalError),
        }
    }

    /// The peer, type, tag and expiry that a response is sent with: the
    /// request's tag, not owned, and never expiring.
    pub fn send_args(&self) -> (r: (mctp::Eid, mctp::MsgType, mctp::Tag, bool))
        ensures
            r == (self.peer(), self.msg_type(), mctp::Tag::Unowned(self.tag_value()), false),
    {
        (self.eid, self.typ, mctp::Tag::Unowned(self.tv), false)
    }

    /// A fresh request channel to the same peer.
    pub fn req_channel(&self) -> (r: ReqChannelState)
        ensures
            r.peer() == self.peer(),
            r.sent() is None,
            r.expires(),
    {
        ReqChannelState::new(self.eid)
    }

    /// The peer of the channel.
    pub fn remote_eid(&self) -> (r: mctp::Eid)
        ensures
            r == self.peer(),
    {
        self.eid
    }
}

} // verus!

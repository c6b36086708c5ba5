//! The `ssh-connection` service seen from the transport: the service
//! endpoint handed over after authentication, and the outbound data path of
//! a single channel. Channel multiplexing beyond that stays with the host.

use vstd::prelude::*;
use crate::session::{spec_rekey_due, Session};
use crate::stream::{spec_recv, SpecRecv};
use crate::stream::MAX_PAYLOAD;
use crate::userauth::{spec_ssh_connection_name, ssh_connection_name};
use crate::wire::{put_string, put_u32, spec_string, spec_u32_be, put_u8};
use crate::{Error, SshResult};

verus! {

/// Message number of SSH_MSG_CHANNEL_DATA.
pub const MSG_CHANNEL_DATA: u8 = 94;

/// Message number of SSH_MSG_CHANNEL_EXTENDED_DATA.
pub const MSG_CHANNEL_EXTENDED_DATA: u8 = 95;

/// The connection service: a name to request or to handle, yielding the
/// channel layer.
pub struct Service;

impl Service {
    /// The service name on the wire.
    pub fn name() -> (r: Vec<u8>)
        ensures
            r@ == spec_ssh_connection_name(),
    {
        ssh_connection_name()
    }

    /// Request the connection service from the peer: queue the
    /// SERVICE_REQUEST and leave the session watching for the matching
    /// SERVICE_ACCEPT.
    pub fn on_accept(&mut self, session: &mut Session) -> (r: SshResult<()>)
        requires
            old(session).wf(),
        ensures
            final(session).wf(),
            (!old(session).is_terminated() && old(session).awaiting_service is None) ==> {
                &&& r is Ok
                &&& (final(session).awaiting_service matches Some(n) && n@
                    == spec_ssh_connection_name())
            },
    {
        session.request(&ssh_connection_name())
    }

    /// Handle one buffered request for the connection service: a buffered
    /// SERVICE_REQUEST naming it is answered with SERVICE_ACCEPT and its
    /// name comes back; any other name terminates the session.
    pub fn on_request(&mut self, session: &mut Session) -> (r: SshResult<Option<Vec<u8>>>)
        requires
            old(session).wf(),
        ensures
            final(session).wf(),
            (!old(session).is_terminated() && old(session).phase is Ready && !spec_rekey_due(
                old(session).stream,
            ) && old(session).awaiting_service is None) ==> match spec_recv(
                old(session).stream.pair.rx,
                old(session).stream.rx_seq,
                old(session).inbuf@,
            ) {
                SpecRecv::Packet(payload, consumed) => (
                crate::msg::spec_parse_service_request(payload) matches Some(name) ==> {
                    &&& (name == spec_ssh_connection_name() ==> (r matches Ok(Some(n)) && n@
                        == name))
                    &&& (name != spec_ssh_connection_name() ==> (r matches Err(
                        Error::Disconnected(e),
                    )) && final(session).is_terminated())
                }),
                _ => true,
            },
    {
        session.handle(&ssh_connection_name())
    }
}

/// The outbound data path of one channel: bytes accumulate in a buffer
/// bounded by the peer's maximum packet size, and leave as CHANNEL_DATA or
/// CHANNEL_EXTENDED_DATA payloads.
pub struct Write {
    /// The peer's channel number.
    pub remote_id: u32,
    /// The extended-data type, for a stderr-like stream.
    pub stream_id: Option<u32>,
    /// The peer's maximum packet size for this channel.
    pub max_size: u32,
    /// Bytes accepted and not yet packed.
    pub buffer: Vec<u8>,
}

/// The payload of a data message for channel `remote_id` carrying `data`:
/// extended data carries its stream number too.
pub open spec fn spec_data_payload(remote_id: u32, stream_id: Option<u32>, data: Seq<u8>) -> Seq<
    u8,
> {
    match stream_id {
        Some(s) => seq![MSG_CHANNEL_EXTENDED_DATA] + spec_u32_be(remote_id) + spec_u32_be(s)
            + spec_string(data),
        None => seq![MSG_CHANNEL_DATA] + spec_u32_be(remote_id) + spec_string(data),
    }
}

impl Write {
    /// Bounded buffer: it always fits one packet.
    pub open spec fn wf(self) -> bool {
        &&& self.buffer@.len() <= self.max_size
        &&& self.max_size + 16 <= MAX_PAYLOAD
    }

    /// A fresh write path for a channel.
    pub fn new(remote_id: u32, stream_id: Option<u32>, max_size: u32) -> (r: Write)
        requires
            max_size + 16 <= MAX_PAYLOAD,
        ensures
            r.wf(),
            r.remote_id == remote_id,
            r.stream_id == stream_id,
            r.max_size == max_size,
            r.buffer@.len() == 0,
    {
        Write { remote_id, stream_id, max_size, buffer: Vec::new() }
    }

    /// How many bytes of `buf` fit right now: up to the channel's maximum
    /// packet size, less what is already buffered.
    pub fn writable(&self, buf_len: usize) -> (r: usize)
        requires
            self.wf(),
        ensures
            r == (if buf_len <= self.max_size - self.buffer@.len() {
                buf_len as int
            } else {
                self.max_size - self.buffer@.len()
            }),
    {
        let cap = self.max_size as usize - self.buffer.len();
        if buf_len <= cap {
            buf_len
        } else {
            cap
        }
    }

    /// Accept up to `reserved` bytes of `buf` into the buffer; what fits is
    /// exactly [`Write::writable`] of the reservation.
    pub fn accept(&mut self, buf: &Vec<u8>, reserved: usize) -> (r: usize)
        requires
            old(self).wf(),
            reserved <= buf@.len(),
        ensures
            final(self).wf(),
            r == (if reserved <= old(self).max_size - old(self).buffer@.len() {
                reserved as int
            } else {
                old(self).max_size - old(self).buffer@.len()
            }),
            final(self).buffer@ == old(self).buffer@ + buf@.subrange(0, r as int),
            final(self).remote_id == old(self).remote_id,
            final(self).stream_id == old(self).stream_id,
            final(self).max_size == old(self).max_size,
    {
        let take = self.writable(reserved);
        let mut i: usize = 0;
        while i < take
            invariant
                i <= take,
                take <= buf@.len(),
                self.buffer@ == old(self).buffer@ + buf@.subrange(0, i as int),
                self.buffer@.len() <= old(self).buffer@.len() + i,
                self.remote_id == old(self).remote_id,
                self.stream_id == old(self).stream_id,
                self.max_size == old(self).max_size,
                old(self).buffer@.len() + take <= self.max_size,
            decreases take - i,
        {
            self.buffer.push(buf[i]);
            i = i + 1;
            assert(self.buffer@ =~= old(self).buffer@ + buf@.subrange(0, i as int));
        }
        take
    }

    /// Drain the buffer into one data payload for the peer.
    pub fn flush_payload(&mut self) -> (r: Vec<u8>)
        requires
            old(self).wf(),
        ensures
            final(self).wf(),
            final(self).buffer@.len() == 0,
            r@ == spec_data_payload(
                old(self).remote_id,
                old(self).stream_id,
                old(self).buffer@,
            ),
            r@.len() <= MAX_PAYLOAD,
            final(self).remote_id == old(self).remote_id,
            final(self).stream_id == old(self).stream_id,
            final(self).max_size == old(self).max_size,
    {
        let mut out: Vec<u8> = Vec::new();
        match self.stream_id {
            Some(s) => {
                put_u8(&mut out, MSG_CHANNEL_EXTENDED_DATA);
                put_u32(&mut out, self.remote_id);
                put_u32(&mut out, s);
            },
            None => {
                put_u8(&mut out, MSG_CHANNEL_DATA);
                put_u32(&mut out, self.remote_id);
            },
        }
        put_string(&mut out, &self.buffer);
        self.buffer = Vec::new();
        assert(out@ =~= spec_data_payload(old(self).remote_id, old(self).stream_id, old(
            self,
        ).buffer@));
        out
    }
}

} // verus!

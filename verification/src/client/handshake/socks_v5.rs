//! The SOCKS5 handshake: the method, the user name and password where that
//! method is chosen, then the request.
use vstd::prelude::*;
use vstd::utf8::encode_utf8;

use crate::client::handshake::Error;
use crate::common::host_address::{HostAddress, HostAddressView};
use crate::protocol::socks::{
    socks5_chosen_method, socks5_credentials, socks5_credentials_accepted,
    socks5_credentials_bytes, socks5_credentials_reply, socks5_greeting_bytes, socks5_greeting_one,
    socks5_method_reply, socks5_reply, socks5_reply_fields, socks5_request, socks5_request_bytes,
    Socks5Method, SocksCommand,
};

verus! {

/// Where a SOCKS5 handshake stands: which reply it waits for.
#[derive(Clone, Copy, Debug, PartialEq, Eq, Structural)]
pub enum Socks5Stage {
    /// The greeting is sent; the server's choice of method is awaited.
    Greeting,
    /// The user name and password are sent; the server's answer is awaited.
    Credentials,
    /// The request is sent; the server's reply is awaited.
    Request,
    /// The handshake is over.
    Finished,
}

/// The method offered: user name and password where both are given, else
/// none.
pub open spec fn offered_method(has_user_name: bool, has_password: bool) -> Socks5Method {
    if has_user_name && has_password {
        Socks5Method::UsernamePassword
    } else {
        Socks5Method::NoAuthentication
    }
}

/// A SOCKS5 handshake as it goes on.
#[derive(Debug)]
pub struct Socks5Handshake {
    command: SocksCommand,
    destination: HostAddress,
    method: Socks5Method,
    user_name: Vec<u8>,
    password: Vec<u8>,
    stage: Socks5Stage,
}

impl Socks5Handshake {
    pub closed spec fn command_spec(&self) -> SocksCommand {
        self.command
    }

    pub closed spec fn destination_spec(&self) -> HostAddressView {
        self.destination@
    }

    pub closed spec fn method_spec(&self) -> Socks5Method {
        self.method
    }

    pub closed spec fn user_name_spec(&self) -> Seq<u8> {
        self.user_name@
    }

    pub closed spec fn password_spec(&self) -> Seq<u8> {
        self.password@
    }

    pub closed spec fn stage_spec(&self) -> Socks5Stage {
        self.stage
    }

    /// Where the handshake stands.
    pub fn stage(&self) -> (r: Socks5Stage)
        ensures
            r == self.stage_spec(),
    {
        self.stage
    }

    /// Starts a handshake that asks for `command` toward `destination`, and
    /// gives the greeting to send: the one method offered.
    pub fn start(
        command: SocksCommand,
        destination: HostAddress,
        user_name: Option<&str>,
        password: Option<&str>,
    ) -> (r: (Socks5Handshake, Vec<u8>))
        ensures
            r.0.command_spec() == command,
            r.0.destination_spec() == destination@,
            r.0.method_spec() == offered_method(user_name is Some, password is Some),
            r.0.method_spec() == Socks5Method::UsernamePassword ==> r.0.user_name_spec()
                == encode_utf8(user_name.unwrap()@) && r.0.password_spec() == encode_utf8(
                password.unwrap()@,
            ),
            r.0.stage_spec() == Socks5Stage::Greeting,
            socks5_greeting_bytes(seq![r.0.method_spec()]) == Ok::<Seq<u8>, crate::protocol::socks::Error>(r.1@),
    {
        let (method, user_name, password) = match (user_name, password) {
            (Some(u), Some(p)) => {
                let mut uv: Vec<u8> = Vec::new();
                crate::protocol::bytes::push_bytes(&mut uv, u.as_bytes());
                let mut pv: Vec<u8> = Vec::new();
                crate::protocol::bytes::push_bytes(&mut pv, p.as_bytes());
                (Socks5Method::UsernamePassword, uv, pv)
            },
            _ => (Socks5Method::NoAuthentication, Vec::new(), Vec::new()),
        };
        let greeting = socks5_greeting_one(method);
        (
            Socks5Handshake {
                command,
                destination,
                method,
                user_name,
                password,
                stage: Socks5Stage::Greeting,
            },
            greeting,
        )
    }

    fn request(&self) -> (r: Result<Vec<u8>, Error>)
        ensures
            match socks5_request_bytes(self.command, self.destination@) {
                Ok(s) => r matches Ok(b) && b@ == s,
                Err(e) => r matches Err(Error::EncodeSocksRequest { source }) && source == e,
            },
    {
        match socks5_request(self.command, &self.destination) {
            Ok(b) => Ok(b),
            Err(source) => Err(Error::EncodeSocksRequest { source }),
        }
    }

    /// Takes the server's choice of method. A choice other than the method
    /// offered ends the handshake; where user name and password were
    /// offered they are sent next, else the request is.
    pub fn on_method_reply(&mut self, reply: &[u8]) -> (r: Result<Vec<u8>, Error>)
        requires
            old(self).stage_spec() == Socks5Stage::Greeting,
        ensures
            final(self).command_spec() == old(self).command_spec(),
            final(self).destination_spec() == old(self).destination_spec(),
            final(self).method_spec() == old(self).method_spec(),
            final(self).user_name_spec() == old(self).user_name_spec(),
            final(self).password_spec() == old(self).password_spec(),
            match socks5_chosen_method(reply@) {
                Err(e) => r matches Err(Error::ParseSocks5Reply { source }) && source == e
                    && final(self).stage_spec() == Socks5Stage::Finished,
                Ok(m) => if m != old(self).method_spec() {
                    r matches Err(Error::UnsupportedSocksMethod { method })
                        && method == old(self).method_spec()
                        && final(self).stage_spec() == Socks5Stage::Finished
                } else if m == Socks5Method::UsernamePassword {
                    match socks5_credentials_bytes(
                        old(self).user_name_spec(),
                        old(self).password_spec(),
                    ) {
                        Ok(s) => r matches Ok(b) && b@ == s && final(self).stage_spec()
                            == Socks5Stage::Credentials,
                        Err(e) => r matches Err(Error::EncodeSocksRequest { source })
                            && source == e && final(self).stage_spec() == Socks5Stage::Finished,
                    }
                } else {
                    match socks5_request_bytes(
                        old(self).command_spec(),
                        old(self).destination_spec(),
                    ) {
                        Ok(s) => r matches Ok(b) && b@ == s && final(self).stage_spec()
                            == Socks5Stage::Request,
                        Err(e) => r matches Err(Error::EncodeSocksRequest { source })
                            && source == e && final(self).stage_spec() == Socks5Stage::Finished,
                    }
                },
            },
    {
        self.stage = Socks5Stage::Finished;
        let chosen = match socks5_method_reply(reply) {
            Ok(m) => m,
            Err(source) => return Err(Error::ParseSocks5Reply { source }),
        };
        if chosen != self.method {
            return Err(Error::UnsupportedSocksMethod { method: self.method });
        }
        if let Socks5Method::UsernamePassword = self.method {
            match socks5_credentials(self.user_name.as_slice(), self.password.as_slice()) {
                Ok(b) => {
                    self.stage = Socks5Stage::Credentials;
                    Ok(b)
                },
                Err(source) => Err(Error::EncodeSocksRequest { source }),
            }
        } else {
            let r = self.request();
            if r.is_ok() {
                self.stage = Socks5Stage::Request;
            }
            r
        }
    }

    /// Takes the server's answer to the user name and password: refused,
    /// the handshake ends with the user name and password; accepted, the
    /// request is sent next.
    pub fn on_credentials_reply(&mut self, reply: &[u8]) -> (r: Result<Vec<u8>, Error>)
        requires
            old(self).stage_spec() == Socks5Stage::Credentials,
        ensures
            final(self).command_spec() == old(self).command_spec(),
            final(self).destination_spec() == old(self).destination_spec(),
            final(self).method_spec() == old(self).method_spec(),
            match socks5_credentials_accepted(reply@) {
                Err(e) => r matches Err(Error::ParseSocks5Reply { source }) && source == e
                    && final(self).stage_spec() == Socks5Stage::Finished,
                Ok(false) => r matches Err(Error::AccessDenied { user_name, password })
                    && user_name@ == old(self).user_name_spec() && password@
                    == old(self).password_spec() && final(self).stage_spec()
                    == Socks5Stage::Finished,
                Ok(true) => match socks5_request_bytes(
                    old(self).command_spec(),
                    old(self).destination_spec(),
                ) {
                    Ok(s) => r matches Ok(b) && b@ == s && final(self).stage_spec()
                        == Socks5Stage::Request,
                    Err(e) => r matches Err(Error::EncodeSocksRequest { source }) && source == e
                        && final(self).stage_spec() == Socks5Stage::Finished,
                },
            },
    {
        self.stage = Socks5Stage::Finished;
        match socks5_credentials_reply(reply) {
            Err(source) => Err(Error::ParseSocks5Reply { source }),
            Ok(false) => {
                let mut user_name: Vec<u8> = Vec::new();
                crate::protocol::bytes::push_bytes(&mut user_name, self.user_name.as_slice());
                let mut password: Vec<u8> = Vec::new();
                crate::protocol::bytes::push_bytes(&mut password, self.password.as_slice());
                Err(Error::AccessDenied { user_name, password })
            },
            Ok(true) => {
                let r = self.request();
                if r.is_ok() {
                    self.stage = Socks5Stage::Request;
                }
                r
            },
        }
    }

    /// Takes the server's reply to the request: success gives the address
    /// the server bound; any other code means the host cannot be reached.
    pub fn on_reply(&mut self, reply: &[u8]) -> (r: Result<HostAddress, Error>)
        requires
            old(self).stage_spec() == Socks5Stage::Request,
        ensures
            final(self).stage_spec() == Socks5Stage::Finished,
            match socks5_reply_fields(reply@) {
                Err(e) => r matches Err(Error::ParseSocks5Reply { source }) && source == e,
                Ok((code, bound)) => if code == 0 {
                    r matches Ok(a) && a@ == bound
                } else {
                    r matches Err(Error::HostUnreachable)
                },
            },
    {
        self.stage = Socks5Stage::Finished;
        match socks5_reply(reply) {
            Err(source) => Err(Error::ParseSocks5Reply { source }),
            Ok((code, bound)) => {
                if code == 0 {
                    Ok(bound)
                } else {
                    Err(Error::HostUnreachable)
                }
            },
        }
    }
}

} // verus!

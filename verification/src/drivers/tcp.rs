use vstd::prelude::*;
use vstd::utf8::encode_utf8;
use crate::drivers::error::ErrorKind;
use crate::multiaddr::{MultiAddr, all_tokens, path_values};
use crate::text::ascii_chars;

verus! {

/// The driver that opens TCP connections.
pub struct TcpDriver {}

/// The address a TCP driver path names: the text of its second segment;
/// a path that does not read as an address, or has no segment, is refused.
pub open spec fn tcp_address_of(socket: Seq<char>) -> Result<Seq<char>, ErrorKind> {
    let b = encode_utf8(socket);
    if !all_tokens(b) || path_values(b).len() < 1 {
        Err(ErrorKind::DriverBadOpen)
    } else {
        Ok(ascii_chars(path_values(b)[1]))
    }
}

impl TcpDriver {
    /// The address to connect to for a driver path such as
    /// `/tcp/127.0.0.1:80`.
    pub fn connect_address(socket: &str) -> (r: Result<String, ErrorKind>)
        requires
            !(all_tokens(encode_utf8(socket@)) && path_values(encode_utf8(socket@)).len() == 1),
        ensures
            match tcp_address_of(socket@) {
                Ok(a) => r matches Ok(x) && x@ == a,
                Err(e) => r matches Err(x) && x == e,
            },
    {
        let ma = match MultiAddr::parse(socket.as_bytes()) {
            Ok(m) => m,
            Err(_) => return Err(ErrorKind::DriverBadOpen),
        };
        proof {
            assert(ma.values().len() == ma.paths@.len());
        }
        if ma.paths_ref().len() < 1 {
            return Err(ErrorKind::DriverBadOpen);
        }
        proof {
            assert(ma.values()[1] == ma.paths@[1].value@);
        }
        Ok(ma.paths_ref()[1].value_to_str())
    }
}

} // verus!

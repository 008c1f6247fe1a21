//! The configuration of a process.

use vstd::prelude::*;
use crate::constants::{ID_BITS, OUTPUT_BUFFER_SIZE, PORT, STABILIZE_FREQUENCY, VIRTUAL_NODE_NUMBER};
use crate::error::{Error, ErrorView};

verus! {

/// The parameters as given on the command line: each one is absent or set.
#[derive(Debug)]
pub struct Params {
    pub port: Option<u16>,
    pub host: Option<String>,
    pub output_buffer_size: Option<usize>,
    pub stabilize_frequency: Option<u64>,
    pub id_bits: Option<u8>,
    pub virtual_node_number: Option<u8>,
}

/// The configuration that a process runs with.
#[derive(Debug)]
pub struct Config {
    pub port: u16,
    pub host: String,
    pub output_buffer_size: usize,
    pub stabilize_frequency: u64,
    pub id_bits: u8,
    pub virtual_node_number: u8,
}

impl Config {
    /// Whether the configuration keeps the limits of its fields: a buffer of
    /// at least one byte, identifiers of at least eight bits, and between one
    /// and 32 virtual nodes.
    pub open spec fn valid(&self) -> bool {
        &&& self.output_buffer_size > 0
        &&& self.id_bits >= 8
        &&& 1 <= self.virtual_node_number <= 32
    }
}

/// The first limit that the parameters break, in the order in which they are
/// examined: buffer size, host, identifier width, number of virtual nodes.
/// `host_is_ip` says whether the host that will be used, given or found, is an
/// IP address.
pub open spec fn params_error(
    params: Params,
    local_ip: Option<String>,
    host_is_ip: bool,
) -> Option<ErrorView> {
    if params.output_buffer_size == Some(0usize) {
        Some(ErrorView::ZeroBufferSize)
    } else if params.host is None && local_ip is None {
        Some(ErrorView::NoLocalIp)
    } else if !host_is_ip {
        Some(ErrorView::BadHost)
    } else if params.id_bits is Some && params.id_bits->0 < 8 {
        Some(ErrorView::IdBitsTooSmall)
    } else if params.virtual_node_number == Some(0u8) {
        Some(ErrorView::ZeroVirtualNodes)
    } else if params.virtual_node_number is Some && params.virtual_node_number->0 > 32 {
        Some(ErrorView::TooManyVirtualNodes)
    } else {
        None
    }
}

/// Builds the configuration from the parameters, with the default for each
/// one that is absent. `local_ip` is the address found on the local
/// interfaces, if any; it stands in for an absent host. `host_is_ip` says
/// whether the host that will be used, the given one or else the found one, is
/// an IPv4 or IPv6 address; a host that is none is refused.
pub fn parse_params(
    params: Params,
    local_ip: Option<String>,
    host_is_ip: bool,
) -> (r: Result<Config, Error>)
    ensures
        match r {
            Ok(config) => {
                &&& params_error(params, local_ip, host_is_ip) is None
                &&& config.valid()
                &&& config.port == if params.port is Some { params.port->0 } else { PORT }
                &&& config.host@ == if params.host is Some { params.host->0@ } else { local_ip->0@ }
                &&& config.output_buffer_size == if params.output_buffer_size is Some {
                    params.output_buffer_size->0
                } else {
                    OUTPUT_BUFFER_SIZE
                }
                &&& config.stabilize_frequency == if params.stabilize_frequency is Some {
                    params.stabilize_frequency->0
                } else {
                    STABILIZE_FREQUENCY
                }
                &&& config.id_bits == if params.id_bits is Some { params.id_bits->0 } else { ID_BITS }
                &&& config.virtual_node_number == if params.virtual_node_number is Some {
                    params.virtual_node_number->0
                } else {
                    VIRTUAL_NODE_NUMBER
                }
            },
            Err(e) => params_error(params, local_ip, host_is_ip) == Some(e@),
        },
{
    let port = match params.port {
        Some(port) => port,
        None => PORT,
    };

    let output_buffer_size = match params.output_buffer_size {
        Some(output_buffer_size) => {
            if output_buffer_size == 0 {
                return Err(Error::ZeroBufferSize);
            }
            output_buffer_size
        },
        None => OUTPUT_BUFFER_SIZE,
    };

    let stabilize_frequency = match params.stabilize_frequency {
        Some(stabilize_frequency) => stabilize_frequency,
        None => STABILIZE_FREQUENCY,
    };

    let host = match params.host {
        Some(host) => host,
        None => match local_ip {
            Some(host) => host,
            None => {
                return Err(Error::NoLocalIp);
            },
        },
    };
    if !host_is_ip {
        return Err(Error::BadHost);
    }

    let id_bits = match params.id_bits {
        Some(id_bits) => {
            if id_bits < 8 {
                return Err(Error::IdBitsTooSmall);
            }
            id_bits
        },
        None => ID_BITS,
    };

    let virtual_node_number = match params.virtual_node_number {
        Some(virtual_node_number) => {
            if virtual_node_number == 0 {
                return Err(Error::ZeroVirtualNodes);
            }
            if virtual_node_number > 32 {
                return Err(Error::TooManyVirtualNodes);
            }
            virtual_node_number
        },
        None => VIRTUAL_NODE_NUMBER,
    };
    Ok(Config { port, host, output_buffer_size, stabilize_frequency, id_bits, virtual_node_number })
}

} // verus!

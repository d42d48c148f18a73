use vstd::prelude::*;
use vstd::string::StringExecFns;

verus! {

/// The errors that the client reports.
#[derive(Debug, Clone, PartialEq, Eq)]
pub enum WarpDREError {
    /// An argument that the caller gave is not valid.
    ArgumentError(String),
    /// The gateway answered with an unexpected status.
    WarpGatewayError(String),
}

/// The text that describes an error.
pub open spec fn error_message(e: WarpDREError) -> Seq<char> {
    match e {
        WarpDREError::ArgumentError(m) => "warp_dre: argument not valid "@ + m@,
        WarpDREError::WarpGatewayError(m) => "warp_dre::warp_gateway "@ + m@,
    }
}

/// Whether `e` is an argument error with the message `msg`.
pub open spec fn is_argument_error(e: WarpDREError, msg: Seq<char>) -> bool {
    match e {
        WarpDREError::ArgumentError(m) => m@ == msg,
        _ => false,
    }
}

/// Whether `e` is a gateway error with the message `msg`.
pub open spec fn is_gateway_error(e: WarpDREError, msg: Seq<char>) -> bool {
    match e {
        WarpDREError::WarpGatewayError(m) => m@ == msg,
        _ => false,
    }
}

impl WarpDREError {
    /// The human-readable text of this error.
    pub fn message(&self) -> (r: String)
        ensures
            r@ == error_message(*self),
    {
        match self {
            WarpDREError::ArgumentError(m) => {
                let prefix = String::from_str("warp_dre: argument not valid ");
                proof { reveal_strlit("warp_dre: argument not valid "); }
                prefix.concat(m.as_str())
            },
            WarpDREError::WarpGatewayError(m) => {
                let prefix = String::from_str("warp_dre::warp_gateway ");
                proof { reveal_strlit("warp_dre::warp_gateway "); }
                prefix.concat(m.as_str())
            },
        }
    }
}

} // verus!

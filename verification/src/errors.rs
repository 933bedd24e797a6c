//! Errors of the transport layer.

use vstd::prelude::*;

verus! {

/// What can go wrong while exchanging messages with a peer.
#[derive(Debug, Clone)]
pub enum AppErr {
    ReadErr(String),
    WriteErr(String),
    Deserialize(String),
    SerializeErr(String),
    AddressErr,
    AlreadyExistErr(String),
}

impl AppErr {
    /// The text an error carries (empty for `AddressErr`, which carries none).
    pub open spec fn detail(self) -> Seq<char> {
        match self {
            AppErr::ReadErr(s) => s@,
            AppErr::WriteErr(s) => s@,
            AppErr::Deserialize(s) => s@,
            AppErr::SerializeErr(s) => s@,
            AppErr::AddressErr => Seq::empty(),
            AppErr::AlreadyExistErr(s) => s@,
        }
    }

    /// The heading under which an error is shown, before its text.
    pub open spec fn heading(self) -> Seq<char> {
        match self {
            AppErr::ReadErr(_) => "ReadErr: "@,
            AppErr::WriteErr(_) => "WrieErr: "@,
            AppErr::Deserialize(_) => "Deserialize: "@,
            AppErr::SerializeErr(_) => "Serialize: "@,
            AppErr::AddressErr => "AddressErr"@,
            AppErr::AlreadyExistErr(_) => "AlreadyExistErr: "@,
        }
    }

    /// The message shown for an error: its heading followed by its text.
    pub fn to_string(&self) -> (s: String)
        ensures
            s@ == self.heading() + self.detail(),
    {
        match self {
            AppErr::ReadErr(t) => {
                let mut s = "ReadErr: ".to_string();
                s.append(t.as_str());
                s
            },
            AppErr::WriteErr(t) => {
                let mut s = "WrieErr: ".to_string();
                s.append(t.as_str());
                s
            },
            AppErr::Deserialize(t) => {
                let mut s = "Deserialize: ".to_string();
                s.append(t.as_str());
                s
            },
            AppErr::SerializeErr(t) => {
                let mut s = "Serialize: ".to_string();
                s.append(t.as_str());
                s
            },
            AppErr::AddressErr => {
                let s = "AddressErr".to_string();
                assert(s@ + Seq::<char>::empty() =~= s@);
                s
            },
            AppErr::AlreadyExistErr(t) => {
                let mut s = "AlreadyExistErr: ".to_string();
                s.append(t.as_str());
                s
            },
        }
    }
}

} // verus!

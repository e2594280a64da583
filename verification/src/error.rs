//! Error kinds for the registry, the access-control store and the grant
//! validator. Every error aborts the current request entirely: no operation
//! leaves a partial update behind.

use vstd::prelude::*;

verus! {

/// The reasons an operation can fail.
#[derive(Clone, Debug)]
pub enum ContractError {
    /// The caller or a batch sender fails an allow-list or owner check.
    Unauthorized {},
    /// A registered player id was registered a second time.
    AlreadyExists {},
    /// A referenced player, or the token issuer binding, is absent.
    NotFound {},
    /// A caller-supplied inventory index is outside the inventory.
    IndexOutOfRange {},
    /// A grant batch contains a message of an unexpected type; carries the
    /// offending type url.
    DisallowedMessage(String),
    /// A grant batch asks to spend fees on a foreign contract.
    DisallowedContract(String),
}

/// Mathematical image of a [`ContractError`], with strings as `Seq<char>`.
pub enum ErrorView {
    Unauthorized,
    AlreadyExists,
    NotFound,
    IndexOutOfRange,
    DisallowedMessage(Seq<char>),
    DisallowedContract(Seq<char>),
}

impl View for ContractError {
    type V = ErrorView;

    open spec fn view(&self) -> ErrorView {
        match self {
            ContractError::Unauthorized {} => ErrorView::Unauthorized,
            ContractError::AlreadyExists {} => ErrorView::AlreadyExists,
            ContractError::NotFound {} => ErrorView::NotFound,
            ContractError::IndexOutOfRange {} => ErrorView::IndexOutOfRange,
            ContractError::DisallowedMessage(s) => ErrorView::DisallowedMessage(s@),
            ContractError::DisallowedContract(s) => ErrorView::DisallowedContract(s@),
        }
    }
}

impl ContractError {
    /// A short human-readable description, mirroring the error kind.
    pub fn describe(&self) -> (r: String)
        ensures
            self is Unauthorized ==> r@ == "Unauthorized"@,
            self is AlreadyExists ==> r@ == "player id already registered"@,
            self is NotFound ==> r@ == "not found"@,
            self is IndexOutOfRange ==> r@ == "inventory index out of range"@,
            self is DisallowedMessage ==> r@ == "message is not in the allow list"@,
            self is DisallowedContract ==> r@ == "not allowed to spend fees on contract"@,
    {
        match self {
            ContractError::Unauthorized {} => "Unauthorized".to_owned(),
            ContractError::AlreadyExists {} => "player id already registered".to_owned(),
            ContractError::NotFound {} => "not found".to_owned(),
            ContractError::IndexOutOfRange {} => "inventory index out of range".to_owned(),
            ContractError::DisallowedMessage(_) => "message is not in the allow list".to_owned(),
            ContractError::DisallowedContract(_) => {
                "not allowed to spend fees on contract".to_owned()
            },
        }
    }
}

} // verus!

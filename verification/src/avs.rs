//! The AVS module: operators register themselves with their details.
use vstd::prelude::*;

use crate::addr_map::{AddrMap, insert_pair};
use crate::host::{Attr, AttrValue, MessageInfo, Response, StdError, attr_static, attr_text};

verus! {

/// An operator's details.
#[derive(Debug)]
pub struct OperatorDetails {
    pub earnings_receiver: String,
    pub delegation_approver: Option<String>,
    pub metadata_uri: String,
}

/// A registered operator.
#[derive(Debug)]
pub struct Operator {
    pub details: OperatorDetails,
    pub is_registered: bool,
}

/// What the module is instantiated with.
#[derive(Debug)]
pub struct InstantiateMsg {
    pub initial_owner: String,
}

/// The module's messages.
#[derive(Debug)]
pub enum ExecuteMsg {
    RegisterAsOperator { details: OperatorDetails, metadata_uri: String },
}

/// The module's storage: the default operator details and the operators by address.
pub struct AvsStore {
    pub operator_details: OperatorDetails,
    pub operators: AddrMap<Operator>,
}

/// Creates the storage: the default operator details pay the initial owner, have no
/// delegation approver and the metadata URI `none`.
pub fn instantiate(info: &MessageInfo, msg: InstantiateMsg) -> (r: (AvsStore, Response))
    ensures
        r.0.operator_details.earnings_receiver == msg.initial_owner,
        r.0.operator_details.delegation_approver is None,
        r.0.operator_details.metadata_uri@ == "none"@,
        r.0.operators@.len() == 0,
        r.1.messages@.len() == 0,
        r.1.attributes@ == seq![
            Attr { key: "method", value: AttrValue::Static("instantiate") },
            Attr { key: "owner", value: AttrValue::Text(info.sender) },
        ],
{
    let details = OperatorDetails {
        earnings_receiver: msg.initial_owner,
        delegation_approver: None,
        metadata_uri: "none".to_owned(),
    };
    let mut attributes: Vec<Attr> = Vec::new();
    attributes.push(attr_static("method", "instantiate"));
    attributes.push(attr_text("owner", info.sender.clone()));
    proof {
        assert(attributes@ =~= seq![
            Attr { key: "method", value: AttrValue::Static("instantiate") },
            Attr { key: "owner", value: AttrValue::Text(info.sender) },
        ]);
    }
    (AvsStore { operator_details: details, operators: AddrMap::new() }, Response { messages: Vec::new(), attributes })
}

impl AvsStore {
    /// Handles a message: `RegisterAsOperator` registers the sender.
    pub fn execute(&mut self, info: &MessageInfo, msg: ExecuteMsg) -> (r: Result<Response, StdError>)
        ensures
            match msg {
                ExecuteMsg::RegisterAsOperator { details, .. } => {
                    &&& final(self).operator_details == old(self).operator_details
                    &&& final(self).operators@ == insert_pair(
                        old(self).operators@,
                        info.sender@,
                        Operator { details, is_registered: true },
                    )
                    &&& r matches Ok(res) && res.messages@.len() == 0 && res.attributes@ == seq![
                        Attr { key: "method", value: AttrValue::Static("register_as_operator") },
                    ]
                },
            },
    {
        match msg {
            ExecuteMsg::RegisterAsOperator { details, metadata_uri } => Ok(
                self.register_as_operator(info, details, metadata_uri),
            ),
        }
    }

    /// Registers the sender as an operator with `details` (replacing an earlier
    /// registration); the metadata URI is not stored.
    pub fn register_as_operator(
        &mut self,
        info: &MessageInfo,
        details: OperatorDetails,
        metadata_uri: String,
    ) -> (r: Response)
        ensures
            final(self).operator_details == old(self).operator_details,
            final(self).operators@ == insert_pair(
                old(self).operators@,
                info.sender@,
                Operator { details, is_registered: true },
            ),
            r.messages@.len() == 0,
            r.attributes@ == seq![Attr { key: "method", value: AttrValue::Static("register_as_operator") }],
    {
        let _ = self.operators.insert(info.sender.clone(), Operator { details, is_registered: true });
        let mut attributes: Vec<Attr> = Vec::new();
        attributes.push(attr_static("method", "register_as_operator"));
        proof {
            assert(attributes@ =~= seq![
                Attr { key: "method", value: AttrValue::Static("register_as_operator") },
            ]);
        }
        Response { messages: Vec::new(), attributes }
    }
}

} // verus!

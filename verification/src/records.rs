use crate::account::Pubkey;
use vstd::prelude::*;

verus! {

/// A fundraising campaign, as persisted in the data buffer of one
/// program-owned account. `admin` is set once at creation and is the sole
/// authority for withdrawals; the text fields are caller-supplied and never
/// validated; `amount_donated` starts at zero and only ever grows.
#[derive(Debug, PartialEq, Eq)]
pub struct Campaign {
    pub admin: Pubkey,
    pub name: Vec<u8>,
    pub description: Vec<u8>,
    pub image_link: Vec<u8>,
    pub amount_donated: u64,
}

/// The mathematical model of a campaign record.
#[verifier::ext_equal]
pub ghost struct CampaignView {
    pub admin: Seq<u8>,
    pub name: Seq<u8>,
    pub description: Seq<u8>,
    pub image_link: Seq<u8>,
    pub amount_donated: u64,
}

impl View for Campaign {
    type V = CampaignView;

    open spec fn view(&self) -> CampaignView {
        CampaignView {
            admin: self.admin@,
            name: self.name@,
            description: self.description@,
            image_link: self.image_link@,
            amount_donated: self.amount_donated,
        }
    }
}

impl CampaignView {
    /// A campaign model is encodable when its admin key is exactly 32 bytes
    /// and each text field's length fits the 4-byte length prefix of the
    /// record layout.
    pub open spec fn wf(self) -> bool {
        &&& self.admin.len() == 32
        &&& self.name.len() <= u32::MAX
        &&& self.description.len() <= u32::MAX
        &&& self.image_link.len() <= u32::MAX
    }
}

impl Campaign {
    pub open spec fn wf(&self) -> bool {
        self@.wf()
    }
}

/// The transient request decoded from a withdrawal's instruction payload:
/// the quantity of lamports the admin wishes to withdraw. Never persisted.
#[derive(Debug, PartialEq, Eq)]
pub struct WithdrawRequest {
    pub amount: u64,
}

} // verus!

use vstd::prelude::*;
use crate::address::Address;
use crate::auth::Auth;

verus! {

/// The largest fee, and the whole, in basis points.
pub const MAX_BPS: i64 = 100_000;

/// The fee that a freshly initialized protocol charges, in basis points.
pub const DEFAULT_FEE_PERCENT: i64 = 1000;

/// Why a settings operation was turned down.
#[derive(Clone, Copy, Debug, PartialEq, Eq, Structural)]
pub enum ContractError {
    InvalidFeePercent,
    ZeroAddress,
    AddressAlreadySet,
    InvalidParameter,
    Unauthorized,
}

/// How far a payment has come.
#[derive(Clone, Copy, Debug, PartialEq, Eq, Structural)]
pub enum PaymentStatus {
    Pending,
    Completed,
    Failed,
}

/// Which of the protocol's addresses an update is about.
#[derive(Clone, Copy, Debug, PartialEq, Eq, Structural)]
pub enum ProtocolAddressType {
    Treasury,
    Aggregator,
}

/// The parties that run the protocol.
#[derive(Debug, PartialEq, Eq)]
pub struct Roles {
    pub admin: Address,
    pub treasury: Address,
    pub relayer: Address,
}

/// What the settings say at one moment, as the order operations read them.
#[derive(Debug, PartialEq, Eq)]
pub struct Settings {
    pub paused: bool,
    pub protocol_fee_percent: i64,
    pub max_bps: i64,
    pub treasury: Address,
    pub relayer: Address,
}

/// What a reading of the settings holds.
pub struct SettingsView {
    pub paused: bool,
    pub protocol_fee_percent: int,
    pub max_bps: int,
    pub treasury: Seq<u8>,
    pub relayer: Seq<u8>,
}

impl View for Settings {
    type V = SettingsView;

    open spec fn view(&self) -> SettingsView {
        SettingsView {
            paused: self.paused,
            protocol_fee_percent: self.protocol_fee_percent as int,
            max_bps: self.max_bps as int,
            treasury: self.treasury@,
            relayer: self.relayer@,
        }
    }
}

impl Settings {
    /// A reading is valid when its fee is a share of the whole, and the whole
    /// is a hundred thousand basis points.
    pub open spec fn wf(&self) -> bool {
        0 <= self.protocol_fee_percent <= self.max_bps && self.max_bps == MAX_BPS
    }

    /// Whether this reading is valid.
    pub fn is_valid(&self) -> (valid: bool)
        ensures
            valid == self.wf(),
    {
        0 <= self.protocol_fee_percent && self.protocol_fee_percent <= self.max_bps && self.max_bps
            == MAX_BPS
    }
}

/// The protocol's settings: who runs it, what it charges, and whether it
/// takes new commitments.
pub struct LPSettingManagerContract {
    roles: Option<Roles>,
    protocol_fee_percent: i64,
    paused: bool,
}

impl LPSettingManagerContract {
    /// Whether `initialize` has run.
    pub closed spec fn is_initialized(&self) -> bool {
        self.roles.is_some()
    }

    /// The administrator, once initialized.
    pub closed spec fn admin(&self) -> Seq<u8> {
        self.roles.unwrap().admin@
    }

    /// The treasury, once initialized.
    pub closed spec fn treasury(&self) -> Seq<u8> {
        self.roles.unwrap().treasury@
    }

    /// The relayer, once initialized.
    pub closed spec fn relayer(&self) -> Seq<u8> {
        self.roles.unwrap().relayer@
    }

    /// The protocol fee in basis points.
    pub closed spec fn fee_percent(&self) -> int {
        self.protocol_fee_percent as int
    }

    /// Whether new commitments are turned down.
    pub closed spec fn paused(&self) -> bool {
        self.paused
    }

    /// The settings' validity: the fee is a share of the whole.
    pub closed spec fn wf(&self) -> bool {
        0 <= self.protocol_fee_percent <= MAX_BPS
    }

    /// The fee lies between nothing and the whole.
    pub proof fn lemma_fee_in_range(&self)
        requires
            self.wf(),
        ensures
            0 <= self.fee_percent() <= MAX_BPS,
    {
    }

    /// The settings before `initialize`: no roles, no fee, not paused.
    pub fn new() -> (settings: LPSettingManagerContract)
        ensures
            settings.wf(),
            !settings.is_initialized(),
            settings.fee_percent() == 0,
            !settings.paused(),
    {
        LPSettingManagerContract { roles: None, protocol_fee_percent: 0, paused: false }
    }

    /// Settings that were kept elsewhere: the roles once `initialize` has
    /// run, the fee and whether the protocol is paused.
    pub fn restore(roles: Option<Roles>, protocol_fee_percent: i64, paused: bool) -> (settings:
        LPSettingManagerContract)
        requires
            0 <= protocol_fee_percent <= MAX_BPS,
        ensures
            settings.wf(),
            settings.is_initialized() == roles.is_some(),
            settings.fee_percent() == protocol_fee_percent,
            settings.paused() == paused,
            roles.is_some() ==> settings.admin() == roles.unwrap().admin@ && settings.treasury()
                == roles.unwrap().treasury@ && settings.relayer() == roles.unwrap().relayer@,
    {
        LPSettingManagerContract { roles, protocol_fee_percent, paused }
    }

    /// Names the parties that run the protocol, and sets the fee to its
    /// default of one percent.
    pub fn initialize(
        &mut self,
        auth: &Auth,
        admin: Address,
        treasury: Address,
        relayer_address: Address,
    )
        requires
            old(self).wf(),
            !old(self).is_initialized(),
            auth@.contains(admin@),
        ensures
            final(self).wf(),
            final(self).is_initialized(),
            final(self).admin() == admin@,
            final(self).treasury() == treasury@,
            final(self).relayer() == relayer_address@,
            final(self).fee_percent() == DEFAULT_FEE_PERCENT,
            !final(self).paused(),
    {
        self.roles = Some(Roles { admin, treasury, relayer: relayer_address });
        self.protocol_fee_percent = DEFAULT_FEE_PERCENT;
        self.paused = false;
    }

    /// What `update_protocol_fee` answers.
    pub open spec fn update_protocol_fee_result(
        &self,
        auth: Set<Seq<u8>>,
        protocol_fee_percent: int,
    ) -> Result<(), ContractError> {
        if !auth.contains(self.admin()) {
            Err(ContractError::Unauthorized)
        } else if !(0 <= protocol_fee_percent <= MAX_BPS) {
            Err(ContractError::InvalidFeePercent)
        } else {
            Ok(())
        }
    }

    /// Sets the protocol fee, in basis points. Only the administrator may, and
    /// only to a share of the whole.
    pub fn update_protocol_fee(&mut self, auth: &Auth, protocol_fee_percent: i64) -> (result:
        Result<(), ContractError>)
        requires
            old(self).wf(),
            old(self).is_initialized(),
        ensures
            final(self).wf(),
            result == old(self).update_protocol_fee_result(auth@, protocol_fee_percent as int),
            final(self).fee_percent() == (if result.is_ok() {
                protocol_fee_percent as int
            } else {
                old(self).fee_percent()
            }),
            final(self).is_initialized(),
            final(self).admin() == old(self).admin(),
            final(self).treasury() == old(self).treasury(),
            final(self).relayer() == old(self).relayer(),
            final(self).paused() == old(self).paused(),
    {
        if !self.admin_signed(auth) {
            return Err(ContractError::Unauthorized);
        }
        if protocol_fee_percent < 0 || protocol_fee_percent > MAX_BPS {
            return Err(ContractError::InvalidFeePercent);
        }
        self.protocol_fee_percent = protocol_fee_percent;
        Ok(())
    }

    fn admin_signed(&self, auth: &Auth) -> (signed: bool)
        requires
            self.is_initialized(),
        ensures
            signed == auth@.contains(self.admin()),
    {
        match &self.roles {
            Some(roles) => auth.has(&roles.admin),
            None => false,
        }
    }

    /// The address that `what` names.
    pub open spec fn protocol_address(&self, what: ProtocolAddressType) -> Seq<u8> {
        match what {
            ProtocolAddressType::Treasury => self.treasury(),
            ProtocolAddressType::Aggregator => self.relayer(),
        }
    }

    /// What `update_protocol_address` answers.
    pub open spec fn update_protocol_address_result(
        &self,
        auth: Set<Seq<u8>>,
        what: ProtocolAddressType,
        value: Seq<u8>,
    ) -> Result<(), ContractError> {
        if !auth.contains(self.admin()) {
            Err(ContractError::Unauthorized)
        } else if self.protocol_address(what) == value {
            Err(ContractError::AddressAlreadySet)
        } else {
            Ok(())
        }
    }

    /// Replaces the treasury or the relayer. Only the administrator may, and
    /// only by an address other than the one in place.
    pub fn update_protocol_address(
        &mut self,
        auth: &Auth,
        what: ProtocolAddressType,
        value: Address,
    ) -> (result: Result<(), ContractError>)
        requires
            old(self).wf(),
            old(self).is_initialized(),
        ensures
            final(self).wf(),
            result == old(self).update_protocol_address_result(auth@, what, value@),
            final(self).is_initialized(),
            final(self).admin() == old(self).admin(),
            final(self).fee_percent() == old(self).fee_percent(),
            final(self).paused() == old(self).paused(),
            final(self).treasury() == (if result.is_ok() && what == ProtocolAddressType::Treasury {
                value@
            } else {
                old(self).treasury()
            }),
            final(self).relayer() == (if result.is_ok() && what
                == ProtocolAddressType::Aggregator {
                value@
            } else {
                old(self).relayer()
            }),
    {
        if !self.admin_signed(auth) {
            return Err(ContractError::Unauthorized);
        }
        self.update_address(what, value)
    }

    fn update_address(&mut self, what: ProtocolAddressType, new_value: Address) -> (result: Result<
        (),
        ContractError,
    >)
        requires
            old(self).wf(),
            old(self).is_initialized(),
        ensures
            final(self).wf(),
            result == (if old(self).protocol_address(what) == new_value@ {
                Err::<(), ContractError>(ContractError::AddressAlreadySet)
            } else {
                Ok(())
            }),
            final(self).is_initialized(),
            final(self).admin() == old(self).admin(),
            final(self).fee_percent() == old(self).fee_percent(),
            final(self).paused() == old(self).paused(),
            final(self).treasury() == (if result.is_ok() && what == ProtocolAddressType::Treasury {
                new_value@
            } else {
                old(self).treasury()
            }),
            final(self).relayer() == (if result.is_ok() && what
                == ProtocolAddressType::Aggregator {
                new_value@
            } else {
                old(self).relayer()
            }),
    {
        match &mut self.roles {
            Some(roles) => {
                match what {
                    ProtocolAddressType::Treasury => {
                        if roles.treasury.same(&new_value) {
                            return Err(ContractError::AddressAlreadySet);
                        }
                        roles.treasury = new_value;
                    },
                    ProtocolAddressType::Aggregator => {
                        if roles.relayer.same(&new_value) {
                            return Err(ContractError::AddressAlreadySet);
                        }
                        roles.relayer = new_value;
                    },
                }
                Ok(())
            },
            None => Ok(()),
        }
    }

    /// What `pause` and `unpause` answer.
    pub open spec fn switch_result(&self, auth: Set<Seq<u8>>) -> Result<(), ContractError> {
        if auth.contains(self.admin()) {
            Ok(())
        } else {
            Err(ContractError::Unauthorized)
        }
    }

    /// Stops new commitments. Only the administrator may.
    pub fn pause(&mut self, auth: &Auth) -> (result: Result<(), ContractError>)
        requires
            old(self).wf(),
            old(self).is_initialized(),
        ensures
            final(self).wf(),
            result == old(self).switch_result(auth@),
            final(self).paused() == (result.is_ok() || old(self).paused()),
            final(self).is_initialized(),
            final(self).admin() == old(self).admin(),
            final(self).treasury() == old(self).treasury(),
            final(self).relayer() == old(self).relayer(),
            final(self).fee_percent() == old(self).fee_percent(),
    {
        if !self.admin_signed(auth) {
            return Err(ContractError::Unauthorized);
        }
        self.paused = true;
        Ok(())
    }

    /// Takes new commitments again. Only the administrator may.
    pub fn unpause(&mut self, auth: &Auth) -> (result: Result<(), ContractError>)
        requires
            old(self).wf(),
            old(self).is_initialized(),
        ensures
            final(self).wf(),
            result == old(self).switch_result(auth@),
            final(self).paused() == (result.is_err() && old(self).paused()),
            final(self).is_initialized(),
            final(self).admin() == old(self).admin(),
            final(self).treasury() == old(self).treasury(),
            final(self).relayer() == old(self).relayer(),
            final(self).fee_percent() == old(self).fee_percent(),
    {
        if !self.admin_signed(auth) {
            return Err(ContractError::Unauthorized);
        }
        self.paused = false;
        Ok(())
    }

    /// The settings as they stand, for the order operations to read.
    pub fn settings(&self) -> (reading: Settings)
        requires
            self.wf(),
            self.is_initialized(),
        ensures
            reading.wf(),
            reading@ == (SettingsView {
                paused: self.paused(),
                protocol_fee_percent: self.fee_percent(),
                max_bps: MAX_BPS as int,
                treasury: self.treasury(),
                relayer: self.relayer(),
            }),
    {
        Settings {
            paused: self.is_paused(),
            protocol_fee_percent: self.protocol_fee_percent,
            max_bps: MAX_BPS,
            treasury: self.get_treasury_address(),
            relayer: self.get_relayer_address(),
        }
    }

    /// The protocol fee and the whole, both in basis points.
    pub fn get_fee_details(&self) -> (details: (i64, i64))
        requires
            self.wf(),
        ensures
            details.0 == self.fee_percent(),
            details.1 == MAX_BPS,
            0 <= details.0 <= details.1,
    {
        (self.protocol_fee_percent, MAX_BPS)
    }

    /// The administrator.
    pub fn get_admin_address(&self) -> (admin: Address)
        requires
            self.is_initialized(),
        ensures
            admin@ == self.admin(),
    {
        match &self.roles {
            Some(roles) => roles.admin.clone(),
            None => Address::new(Vec::new()),
        }
    }

    /// The address that collects the protocol fee.
    pub fn get_treasury_address(&self) -> (treasury: Address)
        requires
            self.is_initialized(),
        ensures
            treasury@ == self.treasury(),
    {
        match &self.roles {
            Some(roles) => roles.treasury.clone(),
            None => Address::new(Vec::new()),
        }
    }

    /// The address that may commit settlements and refunds.
    pub fn get_relayer_address(&self) -> (relayer: Address)
        requires
            self.is_initialized(),
        ensures
            relayer@ == self.relayer(),
    {
        match &self.roles {
            Some(roles) => roles.relayer.clone(),
            None => Address::new(Vec::new()),
        }
    }

    /// Whether new commitments are turned down.
    pub fn is_paused(&self) -> (paused: bool)
        ensures
            paused == self.paused(),
    {
        self.paused
    }

    /// Whether orders may be made in `token`. No token has been enlisted, so
    /// none is supported.
    pub fn is_token_supported(&self, token: &Address) -> (supported: bool)
        ensures
            !supported,
    {
        false
    }
}

} // verus!

use crate::error::{AppError, ParseError};
use crate::util::text::text_eq;
use vstd::prelude::*;
use vstd::string::*;

verus! {

/// What a caller is allowed to act as.
#[derive(Clone, Copy, Debug, PartialEq, Eq, Hash, Structural)]
pub enum Role {
    Admin,
    CarManager,
    MotorbikeManager,
    Customer,
}

/// The authenticated caller of one request.
#[derive(Clone, Debug)]
pub struct Identity {
    pub role: Role,
    pub user_id: String,
}

/// The role that a text names, if any.
pub open spec fn role_named(s: Seq<char>) -> Option<Role> {
    if s == "Admin"@ {
        Some(Role::Admin)
    } else if s == "CarManager"@ {
        Some(Role::CarManager)
    } else if s == "MotorbikeManager"@ {
        Some(Role::MotorbikeManager)
    } else if s == "Customer"@ {
        Some(Role::Customer)
    } else {
        None
    }
}

/// The role and user identifier that an API key stands for, if any.
pub open spec fn key_identity(key: Seq<char>) -> Option<(Role, Seq<char>)> {
    if key == "Admin"@ {
        Some((Role::Admin, "Admin"@))
    } else if key == "CarManager"@ {
        Some((Role::CarManager, "CarManager"@))
    } else if key == "MotorbikeManager"@ {
        Some((Role::MotorbikeManager, "MotorbikeManager"@))
    } else if key == "Customer1"@ {
        Some((Role::Customer, "customer_user_1"@))
    } else if key == "Customer2"@ {
        Some((Role::Customer, "customer_user_2"@))
    } else {
        None
    }
}

impl Role {
    /// The canonical text of the role.
    pub open spec fn name(self) -> Seq<char> {
        match self {
            Role::Admin => "Admin"@,
            Role::CarManager => "CarManager"@,
            Role::MotorbikeManager => "MotorbikeManager"@,
            Role::Customer => "Customer"@,
        }
    }

    /// Whether the role is one of the staff roles, which see every booking.
    pub open spec fn is_staff(self) -> bool {
        self != Role::Customer
    }

    pub fn to_string(&self) -> (s: String)
        ensures
            s@ == self.name(),
    {
        match self {
            Role::Admin => "Admin".to_owned(),
            Role::CarManager => "CarManager".to_owned(),
            Role::MotorbikeManager => "MotorbikeManager".to_owned(),
            Role::Customer => "Customer".to_owned(),
        }
    }

    /// Reads a role from its canonical text.
    pub fn parse(s: &str) -> (r: Result<Role, ParseError>)
        ensures
            r.ok() == role_named(s@),
    {
        if text_eq(s, "Admin") {
            Ok(Role::Admin)
        } else if text_eq(s, "CarManager") {
            Ok(Role::CarManager)
        } else if text_eq(s, "MotorbikeManager") {
            Ok(Role::MotorbikeManager)
        } else if text_eq(s, "Customer") {
            Ok(Role::Customer)
        } else {
            Err(ParseError::VariantNotFound)
        }
    }
}

impl std::str::FromStr for Role {
    type Err = ParseError;

    fn from_str(s: &str) -> (r: Result<Role, ParseError>)
        ensures
            r.ok() == role_named(s@),
    {
        Role::parse(s)
    }
}

/// Reading the canonical text of a role gives the role back.
pub proof fn lemma_role_name_round_trip(role: Role)
    ensures
        role_named(role.name()) == Some(role),
{
    reveal_strlit("Admin");
    reveal_strlit("CarManager");
    reveal_strlit("MotorbikeManager");
    reveal_strlit("Customer");
    assert("Admin"@.len() == 5);
    assert("CarManager"@.len() == 10);
    assert("MotorbikeManager"@.len() == 16);
    assert("Customer"@.len() == 8);
}

impl Identity {
    pub open spec fn user(&self) -> Seq<char> {
        self.user_id@
    }
}

/// The caller that a presented API key stands for. A request without a key,
/// or with a key that nobody holds, is unauthorized.
pub fn identity_for_api_key(api_key: Option<&str>) -> (r: Result<Identity, AppError>)
    ensures
        match api_key {
            None => r is Err && r->Err_0.is_unauthorized("Missing X-API-Key header"@),
            Some(key) => match key_identity(key@) {
                Some((role, user)) => r is Ok && r->Ok_0.role == role && r->Ok_0.user_id@ == user,
                None => r is Err && r->Err_0.is_unauthorized("Invalid API key"@),
            },
        },
{
    match api_key {
        None => Err(AppError::unauthorized("Missing X-API-Key header")),
        Some(key) => {
            if text_eq(key, "Admin") {
                Ok(Identity { role: Role::Admin, user_id: "Admin".to_owned() })
            } else if text_eq(key, "CarManager") {
                Ok(Identity { role: Role::CarManager, user_id: "CarManager".to_owned() })
            } else if text_eq(key, "MotorbikeManager") {
                Ok(
                    Identity {
                        role: Role::MotorbikeManager,
                        user_id: "MotorbikeManager".to_owned(),
                    },
                )
            } else if text_eq(key, "Customer1") {
                Ok(Identity { role: Role::Customer, user_id: "customer_user_1".to_owned() })
            } else if text_eq(key, "Customer2") {
                Ok(Identity { role: Role::Customer, user_id: "customer_user_2".to_owned() })
            } else {
                Err(AppError::unauthorized("Invalid API key"))
            }
        },
    }
}

} // verus!

use vstd::prelude::*;
use vstd::string::StringSliceAdditionalSpecFns;
use vstd::utf8::encode_utf8;
use crate::constant::MAX_NAME_LENGTH;
use crate::errors::Errors;
use crate::state::account::{Keyed, Pubkey};
use crate::state::marketplace::MarketPlace;

verus! {

/// Characters with the Unicode `White_Space` property.
pub open spec fn is_white_space(c: char) -> bool {
    let u = c as u32;
    ||| 0x09 <= u <= 0x0d
    ||| u == 0x20
    ||| u == 0x85
    ||| u == 0xa0
    ||| u == 0x1680
    ||| 0x2000 <= u <= 0x200a
    ||| u == 0x2028
    ||| u == 0x2029
    ||| u == 0x202f
    ||| u == 0x205f
    ||| u == 0x3000
}

/// A name that is empty once surrounding white space is trimmed: every
/// character is white space.
pub open spec fn is_blank(name: Seq<char>) -> bool {
    forall|i: int| 0 <= i < name.len() ==> #[trigger] is_white_space(name[i])
}

/// Length of a name in bytes of its UTF-8 encoding.
pub open spec fn name_byte_len(name: Seq<char>) -> nat {
    encode_utf8(name).len()
}

/// A name is accepted when it is not blank and at most `MAX_NAME_LENGTH`
/// bytes long.
pub open spec fn name_is_valid(name: Seq<char>) -> bool {
    &&& !is_blank(name)
    &&& name_byte_len(name) <= MAX_NAME_LENGTH
}

/// Bumps of the addresses that `Initialize` creates.
#[derive(Clone, Copy, Debug, PartialEq, Eq)]
pub struct InitializeBumps {
    pub marketplace: u8,
    pub treasury: u8,
    pub rewards_mint: u8,
}

/// The accounts `init` reads and writes: the paying admin and the new
/// marketplace account.
#[derive(Clone, Debug, PartialEq, Eq)]
pub struct Initialize {
    pub admin: Pubkey,
    pub marketplace: Keyed<MarketPlace>,
}

/// Whether `c` has the Unicode `White_Space` property.
pub fn is_white_space_char(c: char) -> (r: bool)
    ensures
        r == is_white_space(c),
{
    let u: u32 = c as u32;
    (0x09 <= u && u <= 0x0d) || u == 0x20 || u == 0x85 || u == 0xa0 || u == 0x1680 || (0x2000
        <= u && u <= 0x200a) || u == 0x2028 || u == 0x2029 || u == 0x202f || u == 0x205f || u
        == 0x3000
}

/// Whether `name` is empty once white space is trimmed from both ends.
pub fn is_blank_name(name: &str) -> (r: bool)
    ensures
        r == is_blank(name@),
{
    for c in it: name.chars()
        invariant
            it.seq() == name@,
            forall|i: int| 0 <= i < it.index() ==> #[trigger] is_white_space(name@[i]),
    {
        if !is_white_space_char(c) {
            return false;
        }
    }
    true
}

/// Checks a marketplace name: `InvalidName` when it is blank or longer than
/// `MAX_NAME_LENGTH` bytes.
pub fn validate_name(name: &str) -> (r: Result<(), Errors>)
    requires
        name_byte_len(name@) <= usize::MAX,
    ensures
        r is Ok <==> name_is_valid(name@),
        r is Err ==> r == Err::<(), Errors>(Errors::InvalidName),
{
    let byte_len: usize = name.len();
    if !is_blank_name(name) && byte_len <= MAX_NAME_LENGTH as usize {
        Ok(())
    } else {
        Err(Errors::InvalidName)
    }
}

/// The record a new marketplace holds.
pub open spec fn new_marketplace(admin: Pubkey, name: String, fee: u16, bumps: InitializeBumps) -> MarketPlace {
    MarketPlace {
        admin: admin,
        fee: fee,
        name: name,
        bump: bumps.marketplace,
        treasury_bump: bumps.treasury,
        rewards_bump: bumps.rewards_mint,
    }
}

impl Initialize {
    /// Sets up the marketplace record, after checking its name.
    pub fn init(&mut self, name: String, fee: u16, bumps: InitializeBumps) -> (r: Result<(), Errors>)
        requires
            name_byte_len(name@) <= usize::MAX,
        ensures
            r is Ok <==> name_is_valid(name@),
            r is Ok ==> *final(self) == (Initialize {
                admin: old(self).admin,
                marketplace: Keyed {
                    key: old(self).marketplace.key,
                    data: new_marketplace(old(self).admin, name, fee, bumps),
                },
            }),
            r is Err ==> r == Err::<(), Errors>(Errors::InvalidName) && *final(self) == *old(self),
    {
        validate_name(name.as_str())?;
        self.marketplace.data = MarketPlace {
            admin: self.admin,
            fee,
            name,
            bump: bumps.marketplace,
            treasury_bump: bumps.treasury,
            rewards_bump: bumps.rewards_mint,
        };
        Ok(())
    }
}

} // verus!

//! The escrow program built on the framework: a typed escrow record, the two
//! instructions that create and consume it, and the host calls they request.

use vstd::prelude::*;
use crate::codec::{encode_discriminant, le_bytes, le_value, lemma_le_bytes_len, lemma_le_bytes_of_value, read_address, read_le_field};
use crate::error::FrameworkError;
use crate::lifecycle::{append_bytes, append_suffix, discriminant_ok, zero_bytes};
use crate::pda::{find_address, seeds_view, seeds_with_bump_spec, signing_seed_set, verify_address, verify_post, derive_result, Seeder};
use crate::rent::RentTable;
use crate::rent_exempt::{rent_exempt_post, rent_exempt_success, RentExempt};
use crate::resource::{address_eq, same_identity, unowned_tag, Address, Resource, ResourceList, ResourceView};

verus! {

/// The discriminant the registry assigns to the escrow record: the first (and
/// only) member of the account family, counted from one so that a zeroed
/// buffer never passes for a typed one.
pub const ESCROW_DISCRIMINANT: u64 = 1;

/// The discriminant field width of the escrow family: one byte fits its
/// member count.
pub const ESCROW_DISCRIMINANT_WIDTH: usize = 1;

/// The encoded size of an escrow record: three addresses and one amount.
pub const ESCROW_RECORD_LEN: usize = 104;

/// The full typed buffer size: discriminant field plus record.
pub const ESCROW_BUFFER_LEN: usize = 105;

/// The account family of this program, one discriminant per member.
pub enum EscrowAccounts {
    /// The escrow record, discriminant [`ESCROW_DISCRIMINANT`].
    EscrowAccount(EscrowAccount),
}

impl EscrowAccounts {
    /// How many members the family has.
    pub fn member_count() -> (r: u64)
        ensures
            r == 1,
    {
        1
    }

    /// The family's discriminant field width: the smallest that holds every
    /// member's tag.
    pub fn discriminant_width() -> (r: usize)
        ensures
            r == ESCROW_DISCRIMINANT_WIDTH,
    {
        let w = crate::codec::width_for_count(Self::member_count());
        proof {
            assert(crate::codec::pow256(0) == 1);
            assert(crate::codec::pow256(1) == 256);
            if w > 1 {
                assert(1 >= crate::codec::pow256(1));
            }
        }
        w
    }
}

/// The instructions this program answers.
pub enum EscrowInstructions {
    /// Fund and create an escrow record.
    InitEscrow,
    /// Consume an escrow record and settle both sides.
    Exchange,
}

/// The encoded bytes of an escrow record: the three addresses, then the
/// amount as a little-endian eight-byte field.
pub open spec fn record_encoding(
    initializer: Seq<u8>,
    temp_token_account: Seq<u8>,
    initializer_token_to_receive: Seq<u8>,
    expected_amount: u64,
) -> Seq<u8> {
    initializer + temp_token_account + initializer_token_to_receive + le_bytes(
        expected_amount as nat,
        8,
    )
}

/// The escrow record: who opened the escrow, which token resource it escrows,
/// where the opener wants payment, and how much.
pub struct EscrowAccount {
    /// The party that funded and opened the escrow.
    pub initializer: Address,
    /// The escrowed token resource.
    pub temp_token_account: Address,
    /// Where the initializer receives the counter-payment.
    pub initializer_token_to_receive: Address,
    /// The amount the initializer demands.
    pub expected_amount: u64,
}

impl EscrowAccount {
    /// A well-formed record holds well-formed addresses.
    pub open spec fn wf(&self) -> bool {
        &&& self.initializer.wf()
        &&& self.temp_token_account.wf()
        &&& self.initializer_token_to_receive.wf()
    }

    /// The bytes this record encodes to.
    pub open spec fn encoding(&self) -> Seq<u8> {
        record_encoding(
            self.initializer@,
            self.temp_token_account@,
            self.initializer_token_to_receive@,
            self.expected_amount,
        )
    }

    /// The encoded size of every record.
    pub fn on_chain_size() -> (r: usize)
        ensures
            r == ESCROW_RECORD_LEN,
    {
        32 * 3 + 8
    }

    /// Encodes the record.
    pub fn encode(&self) -> (r: Vec<u8>)
        requires
            self.wf(),
        ensures
            r@ == self.encoding(),
            r@.len() == ESCROW_RECORD_LEN,
    {
        let mut out = crate::resource::copy_bytes(&self.initializer.bytes);
        append_bytes(&mut out, &self.temp_token_account.bytes);
        append_bytes(&mut out, &self.initializer_token_to_receive.bytes);
        let amount_bytes = encode_discriminant(self.expected_amount, 8);
        append_bytes(&mut out, &amount_bytes);
        proof {
            lemma_le_bytes_len(self.expected_amount as nat, 8);
            assert(out@ =~= self.encoding());
        }
        out
    }

    /// Decodes the record stored at `offset`, which must leave room for a full
    /// record in the buffer.
    pub fn decode(buffer: &Vec<u8>, offset: usize) -> (r: Option<EscrowAccount>)
        ensures
            offset + ESCROW_RECORD_LEN <= buffer@.len() ==> {
                &&& r matches Some(a)
                &&& a.wf()
                &&& a.encoding() == buffer@.subrange(
                    offset as int,
                    offset + ESCROW_RECORD_LEN as int,
                )
            },
            offset + ESCROW_RECORD_LEN > buffer@.len() ==> r is None,
    {
        let n = buffer.len();
        if n < ESCROW_RECORD_LEN || offset > n - ESCROW_RECORD_LEN {
            return None;
        }
        let initializer = read_address(buffer, offset);
        let temp_token_account = read_address(buffer, offset + 32);
        let initializer_token_to_receive = read_address(buffer, offset + 64);
        let expected_amount = read_le_field(buffer, offset + 96, 8);
        let record = EscrowAccount {
            initializer,
            temp_token_account,
            initializer_token_to_receive,
            expected_amount,
        };
        proof {
            let s = buffer@.subrange(offset + 96, offset + 104);
            lemma_le_bytes_of_value(s);
            assert(record.encoding() =~= buffer@.subrange(
                offset as int,
                offset + ESCROW_RECORD_LEN as int,
            ));
        }
        Some(record)
    }
}

/// A typed view over a token resource: the framework reads only the holder and
/// the amount from the token program's buffer layout.
pub struct TokenAccount {
    /// The wrapped raw resource.
    pub resource: Resource,
    /// The decoded holder of the tokens.
    pub owner: Address,
    /// The decoded token amount.
    pub amount: u64,
}

impl TokenAccount {
    /// The decoded fields restate the front of the buffer.
    pub open spec fn wf(&self) -> bool {
        &&& self.resource.wf()
        &&& self.owner.wf()
        &&& self.resource@.buffer.len() >= 40
        &&& self.owner@ == self.resource@.buffer.subrange(0, 32)
        &&& self.amount as nat == le_value(self.resource@.buffer.subrange(32, 40))
    }

    /// Decodes the typed view of a token resource.
    pub fn from_resource(resource: Resource) -> (r: Result<TokenAccount, FrameworkError>)
        requires
            resource.wf(),
        ensures
            resource@.buffer.len() >= 40 ==> {
                &&& r matches Ok(t)
                &&& t.wf()
                &&& t.resource == resource
            },
            resource@.buffer.len() < 40 ==> (r matches Err(e) && e is CustomValidation),
    {
        if resource.buffer.len() < 40 {
            return Err(FrameworkError::CustomValidation {
                message: "token resource buffer is too short for a token record",
            });
        }
        let owner = read_address(&resource.buffer, 0);
        let amount = read_le_field(&resource.buffer, 32, 8);
        Ok(TokenAccount { resource, owner, amount })
    }
}

/// A privileged operation the framework asks the host to perform, either under
/// a real signer or under a derived-address seed set.
#[derive(Debug)]
pub enum HostCall {
    /// Hand authority over a token resource to a new authority.
    SetAuthority { account: Address, new_authority: Address, current_authority: Address },
    /// Move tokens under a real signer's authority.
    Transfer { from: Address, to: Address, authority: Address, amount: u64 },
    /// Move tokens signing with a derived-address seed set.
    SignedTransfer { seeds: Vec<Vec<u8>>, from: Address, to: Address, authority: Address, amount: u64 },
    /// Close a token resource signing with a derived-address seed set.
    SignedCloseAccount { seeds: Vec<Vec<u8>>, account: Address, recipient: Address, authority: Address },
}

/// The seed bytes of this program's escrow authority: the literal tag
/// "escrow".
pub open spec fn escrow_seeds() -> Seq<Seq<u8>> {
    seq![seq![101u8, 115u8, 99u8, 114u8, 111u8, 119u8]]
}

/// Builds the escrow authority seeder.
pub fn escrow_seeder() -> (r: Seeder)
    ensures
        r.wf(),
        r@ == escrow_seeds(),
{
    let mut tag: Vec<u8> = Vec::new();
    tag.push(101u8);
    tag.push(115u8);
    tag.push(99u8);
    tag.push(114u8);
    tag.push(111u8);
    tag.push(119u8);
    let mut seeds: Vec<Vec<u8>> = Vec::new();
    proof {
        assert(tag@ =~= seq![101u8, 115u8, 99u8, 114u8, 111u8, 119u8]);
    }
    seeds.push(tag);
    let seeder = Seeder { seeds };
    proof {
        assert(seeder@ =~= escrow_seeds());
    }
    seeder
}

/// The all-zero initial payload an escrow record starts from.
pub open spec fn zero_record_bytes() -> Seq<u8> {
    Seq::new(ESCROW_RECORD_LEN as nat, |i: int| 0u8)
}

/// The instruction payload of [`InitEscrow`].
pub struct InitEscrowData {
    /// The amount the initializer demands.
    pub amount: u64,
}

/// The instruction payload of [`Exchange`].
pub struct ExchangeData {
    /// The amount the taker believes the initializer demands.
    pub amount: u64,
}

/// The resources [`InitEscrow`] consumes, in list order.
pub struct InitEscrowAccounts {
    /// The signing party that funds and opens the escrow.
    pub initializer: Resource,
    /// The token resource to be escrowed.
    pub temp_token_account: TokenAccount,
    /// Where the initializer wants the counter-payment.
    pub initializer_token_account: TokenAccount,
    /// The record account, created or adopted, rent exempt.
    pub escrow_account: RentExempt,
    /// The token program.
    pub token_program: Resource,
    /// The system program.
    pub system_program: Resource,
}

impl InitEscrowAccounts {
    /// All parts are well-formed.
    pub open spec fn wf(&self) -> bool {
        &&& self.initializer.wf()
        &&& self.temp_token_account.wf()
        &&& self.initializer_token_account.wf()
        &&& self.escrow_account.wf()
        &&& self.token_program.wf()
        &&& self.system_program.wf()
    }

    /// The flag and ownership checks that guard initialization.
    pub open spec fn gates_ok(&self) -> bool {
        &&& self.initializer@.is_signer
        &&& self.temp_token_account.resource@.is_writable
        &&& self.temp_token_account.owner@ == self.initializer@.address
    }
}

/// Which error construction of [`InitEscrowAccounts`] reports, following the
/// order in which the resources are consumed and decoded.
pub open spec fn init_from_error(l: Seq<Resource>, e: FrameworkError) -> bool {
    if l.len() < 2 {
        e is InsufficientResources
    } else if l[1]@.buffer.len() < 40 {
        e is CustomValidation
    } else if l.len() < 3 {
        e is InsufficientResources
    } else if l[2]@.buffer.len() < 40 {
        e is CustomValidation
    } else {
        e is InsufficientResources && l.len() < 6
    }
}

/// The init instruction: funds and creates (or adopts) the escrow record.
pub struct InitEscrow;

impl InitEscrow {
    /// The construction argument derived from the payload: none.
    pub fn data_to_instruction_arg(_data: &mut InitEscrowData) -> (r: Result<(), FrameworkError>)
        ensures
            r is Ok,
    {
        Ok(())
    }

    /// Consumes the instruction's six resources from the list, decoding the
    /// two token views on the way.
    pub fn from_accounts(program_id: &Address, list: &mut ResourceList) -> (r: Result<
        InitEscrowAccounts,
        FrameworkError,
    >)
        requires
            program_id.wf(),
            old(list).wf(),
        ensures
            final(list).wf(),
            r is Ok <==> old(list)@.len() >= 6 && old(list)@[1]@.buffer.len() >= 40 && old(
                list,
            )@[2]@.buffer.len() >= 40,
            r matches Ok(a) ==> {
                &&& a.wf()
                &&& a.initializer == old(list)@[0]
                &&& a.temp_token_account.resource == old(list)@[1]
                &&& a.initializer_token_account.resource == old(list)@[2]
                &&& a.escrow_account.resource_spec() == old(list)@[3]
                &&& (a.escrow_account.0 is Zeroed <==> old(list)@[3]@.owner == program_id@)
                &&& a.token_program == old(list)@[4]
                &&& a.system_program == old(list)@[5]
                &&& final(list)@ == old(list)@.skip(6)
            },
            r matches Err(e) ==> init_from_error(old(list)@, e),
    {
        let initializer = list.take_next()?;
        let temp_resource = list.take_next()?;
        let temp_token_account = TokenAccount::from_resource(temp_resource)?;
        let token_resource = list.take_next()?;
        let initializer_token_account = TokenAccount::from_resource(token_resource)?;
        let escrow_account = RentExempt::from_accounts(program_id, list)?;
        let token_program = list.take_next()?;
        let system_program = list.take_next()?;
        proof {
            assert(final(list)@ =~= old(list)@.skip(6));
        }
        Ok(InitEscrowAccounts {
            initializer,
            temp_token_account,
            initializer_token_account,
            escrow_account,
            token_program,
            system_program,
        })
    }

    /// Validates the six resources: the initializer signs, the escrowed token
    /// resource is writable and held by the initializer, and the record
    /// account initializes (create or adopt) into a rent-exempt state with a
    /// zeroed initial record.
    pub fn validate(
        accounts: &mut InitEscrowAccounts,
        program_id: &Address,
        rent: &RentTable,
    ) -> (r: Result<(), FrameworkError>)
        requires
            old(accounts).wf(),
            program_id.wf(),
            program_id@ != unowned_tag(),
            old(accounts).escrow_account.resource_spec()@.balance + old(
                accounts,
            ).initializer@.balance <= u64::MAX,
        ensures
            final(accounts).wf(),
            final(accounts).temp_token_account == old(accounts).temp_token_account,
            final(accounts).initializer_token_account == old(accounts).initializer_token_account,
            final(accounts).token_program == old(accounts).token_program,
            final(accounts).system_program == old(accounts).system_program,
            final(accounts).gates_ok() == old(accounts).gates_ok(),
            !old(accounts).gates_ok() ==> *final(accounts) == *old(accounts) && (r matches Err(e)
                && e is CustomValidation),
            old(accounts).gates_ok() ==> rent_exempt_post(
                r,
                old(accounts).escrow_account.resource_spec()@,
                old(accounts).initializer@,
                final(accounts).escrow_account.resource_spec()@,
                final(accounts).initializer@,
                program_id@,
                *rent,
                ESCROW_DISCRIMINANT,
                ESCROW_DISCRIMINANT_WIDTH as nat,
                zero_record_bytes(),
            ),
            r is Ok <==> old(accounts).gates_ok() && rent_exempt_success(
                old(accounts).escrow_account.resource_spec()@,
                old(accounts).initializer@,
                program_id@,
                *rent,
                ESCROW_DISCRIMINANT_WIDTH as nat,
                zero_record_bytes(),
            ),
    {
        if !accounts.initializer.is_signer {
            return Err(FrameworkError::CustomValidation {
                message: "the initializer must sign the invocation",
            });
        }
        if !accounts.temp_token_account.resource.is_writable {
            return Err(FrameworkError::CustomValidation {
                message: "the escrowed token resource must be writable",
            });
        }
        if !address_eq(&accounts.temp_token_account.owner, &accounts.initializer.address) {
            return Err(FrameworkError::CustomValidation {
                message: "the escrowed token resource must be held by the initializer",
            });
        }
        let payload = zero_bytes(ESCROW_RECORD_LEN);
        proof {
            assert(payload@ =~= zero_record_bytes());
        }
        accounts.escrow_account.validate(
            program_id,
            rent,
            ESCROW_DISCRIMINANT,
            ESCROW_DISCRIMINANT_WIDTH,
            &payload,
            &mut accounts.initializer,
        )
    }

    /// The instruction's work: fill the record with the supplied parties and
    /// amount, and ask the host to hand the escrowed token resource to this
    /// program's derived authority.
    pub fn process(
        program_id: &Address,
        data: &InitEscrowData,
        accounts: &mut InitEscrowAccounts,
    ) -> (r: Result<Vec<HostCall>, FrameworkError>)
        requires
            program_id.wf(),
            old(accounts).wf(),
            old(accounts).escrow_account.resource_spec()@.buffer.len() >= ESCROW_BUFFER_LEN,
        ensures
            final(accounts).wf(),
            final(accounts).initializer == old(accounts).initializer,
            final(accounts).temp_token_account == old(accounts).temp_token_account,
            final(accounts).initializer_token_account == old(accounts).initializer_token_account,
            final(accounts).token_program == old(accounts).token_program,
            final(accounts).system_program == old(accounts).system_program,
            r is Ok <==> derive_result(escrow_seeds(), program_id@) is Some,
            r matches Err(e) ==> e is NoViableBumpFound && *final(accounts) == *old(accounts),
            r matches Ok(calls) ==> {
                let esc0 = old(accounts).escrow_account.resource_spec()@;
                let esc1 = final(accounts).escrow_account.resource_spec()@;
                &&& derive_result(escrow_seeds(), program_id@) matches Some(ab) && {
                    &&& calls@.len() == 1
                    &&& calls@[0] matches HostCall::SetAuthority {
                        account,
                        new_authority,
                        current_authority,
                    }
                    &&& account@ == old(accounts).temp_token_account.resource@.address
                    &&& new_authority@ == ab.0
                    &&& current_authority@ == old(accounts).initializer@.address
                }
                &&& same_identity(esc0, esc1)
                &&& esc1.owner == esc0.owner
                &&& esc1.balance == esc0.balance
                &&& esc1.buffer.len() == esc0.buffer.len()
                &&& esc1.buffer.take(ESCROW_DISCRIMINANT_WIDTH as int) == le_bytes(
                    ESCROW_DISCRIMINANT as nat,
                    ESCROW_DISCRIMINANT_WIDTH as nat,
                )
                &&& esc1.buffer.subrange(
                    ESCROW_DISCRIMINANT_WIDTH as int,
                    ESCROW_BUFFER_LEN as int,
                ) == record_encoding(
                    old(accounts).initializer@.address,
                    old(accounts).temp_token_account.resource@.address,
                    old(accounts).initializer_token_account.resource@.address,
                    data.amount,
                )
                &&& esc1.buffer.skip(ESCROW_BUFFER_LEN as int) == esc0.buffer.skip(
                    ESCROW_BUFFER_LEN as int,
                )
            },
    {
        let seeder = escrow_seeder();
        let found = find_address(&seeder, program_id);
        let (pda, _bump) = match found {
            Ok(ab) => ab,
            Err(e) => {
                return Err(e);
            },
        };
        let record = EscrowAccount {
            initializer: accounts.initializer.address.duplicate(),
            temp_token_account: accounts.temp_token_account.resource.address.duplicate(),
            initializer_token_to_receive:
                accounts.initializer_token_account.resource.address.duplicate(),
            expected_amount: data.amount,
        };
        let mut calls: Vec<HostCall> = Vec::new();
        calls.push(HostCall::SetAuthority {
            account: accounts.temp_token_account.resource.address.duplicate(),
            new_authority: pda,
            current_authority: accounts.initializer.address.duplicate(),
        });
        let record_bytes = record.encode();
        let escrow_resource = accounts.escrow_account.0.resource_mut();
        let mut buf = encode_discriminant(ESCROW_DISCRIMINANT, ESCROW_DISCRIMINANT_WIDTH);
        append_bytes(&mut buf, &record_bytes);
        let cur_len = escrow_resource.buffer.len();
        proof {
            assert(buf@.len() + (cur_len - ESCROW_BUFFER_LEN) <= usize::MAX);
        }
        append_suffix(&mut buf, &escrow_resource.buffer, ESCROW_BUFFER_LEN);
        escrow_resource.buffer = buf;
        proof {
            lemma_le_bytes_len(ESCROW_DISCRIMINANT as nat, ESCROW_DISCRIMINANT_WIDTH as nat);
            assert(escrow_resource@.buffer.take(ESCROW_DISCRIMINANT_WIDTH as int) =~= le_bytes(
                ESCROW_DISCRIMINANT as nat,
                ESCROW_DISCRIMINANT_WIDTH as nat,
            ));
            assert(escrow_resource@.buffer.subrange(
                ESCROW_DISCRIMINANT_WIDTH as int,
                ESCROW_BUFFER_LEN as int,
            ) =~= record.encoding());
            assert(escrow_resource@.buffer.skip(ESCROW_BUFFER_LEN as int) =~= old(
                accounts,
            ).escrow_account.resource_spec()@.buffer.skip(ESCROW_BUFFER_LEN as int));
        }
        Ok(calls)
    }
}

/// The resources [`Exchange`] consumes, in list order, with the escrow record
/// decoded from its buffer.
pub struct ExchangeAccounts {
    /// The signing counter-party.
    pub taker: Resource,
    /// Where the taker pays from.
    pub taker_send_token_account: TokenAccount,
    /// Where the taker receives the escrowed tokens.
    pub taker_receive_token_account: TokenAccount,
    /// The escrowed token resource named by the record.
    pub temp_token_account: TokenAccount,
    /// The initializer, named by the record.
    pub initializer: Resource,
    /// The initializer's receiving token resource, named by the record.
    pub initializer_token_account: TokenAccount,
    /// The escrow record account, closed on success.
    pub escrow_account: Resource,
    /// The record decoded from the escrow account's buffer.
    pub escrow_record: EscrowAccount,
    /// The token program.
    pub token_program: Resource,
    /// The derived authority of this program.
    pub pda_account: Resource,
}

impl ExchangeAccounts {
    /// All parts are well-formed and the decoded record restates the buffer.
    pub open spec fn wf(&self) -> bool {
        &&& self.taker.wf()
        &&& self.taker_send_token_account.wf()
        &&& self.taker_receive_token_account.wf()
        &&& self.temp_token_account.wf()
        &&& self.initializer.wf()
        &&& self.initializer_token_account.wf()
        &&& self.escrow_account.wf()
        &&& self.escrow_record.wf()
        &&& self.token_program.wf()
        &&& self.pda_account.wf()
        &&& self.escrow_account@.buffer.len() >= ESCROW_BUFFER_LEN
        &&& self.escrow_record.encoding() == self.escrow_account@.buffer.subrange(
            ESCROW_DISCRIMINANT_WIDTH as int,
            ESCROW_BUFFER_LEN as int,
        )
    }

    /// The flag, key-equality and typing checks that guard the exchange.
    pub open spec fn gates_ok(&self, program: Seq<u8>) -> bool {
        &&& self.taker@.is_signer
        &&& self.taker_send_token_account.resource@.is_writable
        &&& self.taker_send_token_account.owner@ == self.taker@.address
        &&& self.taker_receive_token_account.resource@.is_writable
        &&& self.temp_token_account.resource@.is_writable
        &&& self.temp_token_account.resource@.address == self.escrow_record.temp_token_account@
        &&& self.initializer@.is_writable
        &&& self.initializer@.address == self.escrow_record.initializer@
        &&& self.initializer_token_account.resource@.is_writable
        &&& self.initializer_token_account.resource@.address
            == self.escrow_record.initializer_token_to_receive@
        &&& self.escrow_account@.is_writable
        &&& self.escrow_account@.owner == program
        &&& discriminant_ok(
            self.escrow_account@.buffer,
            ESCROW_DISCRIMINANT,
            ESCROW_DISCRIMINANT_WIDTH as nat,
        )
    }
}

/// Which error construction of [`ExchangeAccounts`] reports, following the
/// order in which the resources are consumed and decoded.
pub open spec fn exchange_from_error(l: Seq<Resource>, e: FrameworkError) -> bool {
    if l.len() < 2 {
        e is InsufficientResources
    } else if l[1]@.buffer.len() < 40 {
        e is CustomValidation
    } else if l.len() < 3 {
        e is InsufficientResources
    } else if l[2]@.buffer.len() < 40 {
        e is CustomValidation
    } else if l.len() < 4 {
        e is InsufficientResources
    } else if l[3]@.buffer.len() < 40 {
        e is CustomValidation
    } else if l.len() < 6 {
        e is InsufficientResources
    } else if l[5]@.buffer.len() < 40 {
        e is CustomValidation
    } else if l.len() < 7 {
        e is InsufficientResources
    } else if l[6]@.buffer.len() < ESCROW_BUFFER_LEN {
        e is CustomValidation
    } else {
        e is InsufficientResources && l.len() < 9
    }
}

/// The exchange instruction: the counter-party settles against the record.
pub struct Exchange;

impl Exchange {
    /// The construction argument derived from the payload: none.
    pub fn data_to_instruction_arg(_data: &mut ExchangeData) -> (r: Result<(), FrameworkError>)
        ensures
            r is Ok,
    {
        Ok(())
    }

    /// Consumes the instruction's nine resources from the list, decoding the
    /// token views and the escrow record on the way.
    pub fn from_accounts(program_id: &Address, list: &mut ResourceList) -> (r: Result<
        ExchangeAccounts,
        FrameworkError,
    >)
        requires
            program_id.wf(),
            old(list).wf(),
        ensures
            final(list).wf(),
            r is Ok <==> old(list)@.len() >= 9 && old(list)@[1]@.buffer.len() >= 40 && old(
                list,
            )@[2]@.buffer.len() >= 40 && old(list)@[3]@.buffer.len() >= 40 && old(
                list,
            )@[5]@.buffer.len() >= 40 && old(list)@[6]@.buffer.len() >= ESCROW_BUFFER_LEN,
            r matches Ok(a) ==> {
                &&& a.wf()
                &&& a.taker == old(list)@[0]
                &&& a.taker_send_token_account.resource == old(list)@[1]
                &&& a.taker_receive_token_account.resource == old(list)@[2]
                &&& a.temp_token_account.resource == old(list)@[3]
                &&& a.initializer == old(list)@[4]
                &&& a.initializer_token_account.resource == old(list)@[5]
                &&& a.escrow_account == old(list)@[6]
                &&& a.token_program == old(list)@[7]
                &&& a.pda_account == old(list)@[8]
                &&& final(list)@ == old(list)@.skip(9)
            },
            r matches Err(e) ==> exchange_from_error(old(list)@, e),
    {
        let taker = list.take_next()?;
        let send_resource = list.take_next()?;
        let taker_send_token_account = TokenAccount::from_resource(send_resource)?;
        let receive_resource = list.take_next()?;
        let taker_receive_token_account = TokenAccount::from_resource(receive_resource)?;
        let temp_resource = list.take_next()?;
        let temp_token_account = TokenAccount::from_resource(temp_resource)?;
        let initializer = list.take_next()?;
        let token_resource = list.take_next()?;
        let initializer_token_account = TokenAccount::from_resource(token_resource)?;
        let escrow_account = list.take_next()?;
        let escrow_record = match EscrowAccount::decode(
            &escrow_account.buffer,
            ESCROW_DISCRIMINANT_WIDTH,
        ) {
            Some(record) => record,
            None => {
                return Err(FrameworkError::CustomValidation {
                    message: "escrow account buffer is too short for its record",
                });
            },
        };
        let token_program = list.take_next()?;
        let pda_account = list.take_next()?;
        proof {
            assert(final(list)@ =~= old(list)@.skip(9));
        }
        Ok(ExchangeAccounts {
            taker,
            taker_send_token_account,
            taker_receive_token_account,
            temp_token_account,
            initializer,
            initializer_token_account,
            escrow_account,
            escrow_record,
            token_program,
            pda_account,
        })
    }

    /// Validates the nine resources: the taker signs, every mutated resource
    /// is writable, the record's named parties match the supplied resources,
    /// the escrow account is typed as an escrow record, and the derived
    /// authority's address re-derives from the escrow seeds. Returns the
    /// discovered bump.
    pub fn validate(accounts: &ExchangeAccounts, program_id: &Address) -> (r: Result<
        u8,
        FrameworkError,
    >)
        requires
            accounts.wf(),
            program_id.wf(),
        ensures
            r is Ok ==> accounts.gates_ok(program_id@),
            accounts.gates_ok(program_id@) ==> verify_post(
                r,
                accounts.pda_account@.address,
                escrow_seeds(),
                program_id@,
            ),
            r is Ok <==> accounts.gates_ok(program_id@) && (derive_result(
                escrow_seeds(),
                program_id@,
            ) matches Some(ab) && ab.0 == accounts.pda_account@.address),
    {
        if !accounts.taker.is_signer {
            return Err(FrameworkError::CustomValidation {
                message: "the taker must sign the invocation",
            });
        }
        if !accounts.taker_send_token_account.resource.is_writable {
            return Err(FrameworkError::CustomValidation {
                message: "the taker's paying token resource must be writable",
            });
        }
        if !address_eq(&accounts.taker_send_token_account.owner, &accounts.taker.address) {
            return Err(FrameworkError::CustomValidation {
                message: "the taker's paying token resource must be held by the taker",
            });
        }
        if !accounts.taker_receive_token_account.resource.is_writable {
            return Err(FrameworkError::CustomValidation {
                message: "the taker's receiving token resource must be writable",
            });
        }
        if !accounts.temp_token_account.resource.is_writable {
            return Err(FrameworkError::CustomValidation {
                message: "the escrowed token resource must be writable",
            });
        }
        if !address_eq(
            &accounts.temp_token_account.resource.address,
            &accounts.escrow_record.temp_token_account,
        ) {
            return Err(FrameworkError::CustomValidation {
                message: "the escrowed token resource is not the one the record names",
            });
        }
        if !accounts.initializer.is_writable {
            return Err(FrameworkError::CustomValidation {
                message: "the initializer resource must be writable",
            });
        }
        if !address_eq(&accounts.initializer.address, &accounts.escrow_record.initializer) {
            return Err(FrameworkError::CustomValidation {
                message: "the initializer resource is not the one the record names",
            });
        }
        if !accounts.initializer_token_account.resource.is_writable {
            return Err(FrameworkError::CustomValidation {
                message: "the initializer's receiving token resource must be writable",
            });
        }
        if !address_eq(
            &accounts.initializer_token_account.resource.address,
            &accounts.escrow_record.initializer_token_to_receive,
        ) {
            return Err(FrameworkError::CustomValidation {
                message: "the initializer's receiving token resource is not the one the record names",
            });
        }
        if !accounts.escrow_account.is_writable {
            return Err(FrameworkError::CustomValidation {
                message: "the escrow account must be writable",
            });
        }
        crate::lifecycle::validate_discriminant(
            &accounts.escrow_account,
            program_id,
            ESCROW_DISCRIMINANT,
            ESCROW_DISCRIMINANT_WIDTH,
        )?;
        let seeder = escrow_seeder();
        verify_address(&accounts.pda_account.address, &seeder, program_id)
    }

    /// The instruction's work: the supplied amount must equal the recorded
    /// one; then the taker pays the initializer, the derived authority hands
    /// the escrowed tokens to the taker and closes the escrowed token
    /// resource, and the record account itself is closed into the initializer.
    pub fn process(
        data: &ExchangeData,
        accounts: &mut ExchangeAccounts,
        bump: u8,
    ) -> (r: Result<Vec<HostCall>, FrameworkError>)
        requires
            old(accounts).wf(),
            old(accounts).escrow_account@.balance + old(accounts).initializer@.balance
                <= u64::MAX,
        ensures
            final(accounts).taker == old(accounts).taker,
            final(accounts).taker_send_token_account == old(accounts).taker_send_token_account,
            final(accounts).taker_receive_token_account == old(
                accounts,
            ).taker_receive_token_account,
            final(accounts).temp_token_account == old(accounts).temp_token_account,
            final(accounts).initializer_token_account == old(accounts).initializer_token_account,
            final(accounts).escrow_record == old(accounts).escrow_record,
            final(accounts).token_program == old(accounts).token_program,
            final(accounts).pda_account == old(accounts).pda_account,
            r is Ok <==> data.amount == old(accounts).escrow_record.expected_amount,
            r matches Err(e) ==> e is CustomValidation && *final(accounts) == *old(accounts),
            r matches Ok(calls) ==> {
                &&& calls@.len() == 3
                &&& (calls@[0] matches HostCall::Transfer { from, to, authority, amount } && {
                    &&& from@ == old(accounts).taker_send_token_account.resource@.address
                    &&& to@ == old(accounts).initializer_token_account.resource@.address
                    &&& authority@ == old(accounts).taker@.address
                    &&& amount == old(accounts).escrow_record.expected_amount
                })
                &&& (calls@[1] matches HostCall::SignedTransfer {
                    seeds,
                    from,
                    to,
                    authority,
                    amount,
                } && {
                    &&& seeds_view(seeds@) == seeds_with_bump_spec(escrow_seeds(), bump)
                    &&& from@ == old(accounts).temp_token_account.resource@.address
                    &&& to@ == old(accounts).taker_receive_token_account.resource@.address
                    &&& authority@ == old(accounts).pda_account@.address
                    &&& amount == old(accounts).temp_token_account.amount
                })
                &&& (calls@[2] matches HostCall::SignedCloseAccount {
                    seeds,
                    account,
                    recipient,
                    authority,
                } && {
                    &&& seeds_view(seeds@) == seeds_with_bump_spec(escrow_seeds(), bump)
                    &&& account@ == old(accounts).temp_token_account.resource@.address
                    &&& recipient@ == old(accounts).initializer@.address
                    &&& authority@ == old(accounts).pda_account@.address
                })
                &&& same_identity(old(accounts).escrow_account@, final(accounts).escrow_account@)
                &&& final(accounts).escrow_account@.owner == unowned_tag()
                &&& final(accounts).escrow_account@.balance == 0
                &&& final(accounts).escrow_account@.buffer.len()
                    == old(accounts).escrow_account@.buffer.len()
                &&& (forall|i: int|
                    0 <= i < final(accounts).escrow_account@.buffer.len()
                        ==> final(accounts).escrow_account@.buffer[i] == 0)
                &&& final(accounts).initializer@ == (ResourceView {
                    balance: (old(accounts).escrow_account@.balance
                        + old(accounts).initializer@.balance) as u64,
                    ..old(accounts).initializer@
                })
            },
    {
        if data.amount != accounts.escrow_record.expected_amount {
            return Err(FrameworkError::CustomValidation {
                message: "the supplied amount did not equal the expected amount",
            });
        }
        let seeder = escrow_seeder();
        let mut calls: Vec<HostCall> = Vec::new();
        calls.push(HostCall::Transfer {
            from: accounts.taker_send_token_account.resource.address.duplicate(),
            to: accounts.initializer_token_account.resource.address.duplicate(),
            authority: accounts.taker.address.duplicate(),
            amount: accounts.escrow_record.expected_amount,
        });
        calls.push(HostCall::SignedTransfer {
            seeds: signing_seed_set(&seeder, bump),
            from: accounts.temp_token_account.resource.address.duplicate(),
            to: accounts.taker_receive_token_account.resource.address.duplicate(),
            authority: accounts.pda_account.address.duplicate(),
            amount: accounts.temp_token_account.amount,
        });
        calls.push(HostCall::SignedCloseAccount {
            seeds: signing_seed_set(&seeder, bump),
            account: accounts.temp_token_account.resource.address.duplicate(),
            recipient: accounts.initializer.address.duplicate(),
            authority: accounts.pda_account.address.duplicate(),
        });
        crate::lifecycle::close_resource(&mut accounts.escrow_account, &mut accounts.initializer);
        Ok(calls)
    }
}

} // verus!

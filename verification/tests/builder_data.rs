use pinocchio::Address;
use pinocchio_token_interface::builder::{MintBuilder, TokenAccountBuilder};
use pinocchio_token_interface::error::ProgramError as LibraryError;
use pinocchio_token_interface::staging::extension_append_len;
use solana_program_error::ProgramError;
use solana_program_pack::Pack;
use spl_token_2022_interface::error::TokenError;
use spl_token_2022_interface::extension::{
    immutable_owner::ImmutableOwner, interest_bearing_mint::InterestBearingConfig,
    memo_transfer::MemoTransfer, metadata_pointer::MetadataPointer,
    mint_close_authority::MintCloseAuthority, permanent_delegate::PermanentDelegate,
    scaled_ui_amount::ScaledUiAmountConfig, set_account_type, transfer_fee::TransferFeeAmount,
    BaseState, BaseStateWithExtensions, BaseStateWithExtensionsMut, Extension, ExtensionType,
    StateWithExtensions, StateWithExtensionsMut,
};
use spl_token_2022_interface::state::{Account, Mint};
use spl_token_metadata_interface::state::TokenMetadata;
use spl_type_length_value::variable_len_pack::VariableLenPack;

fn kind(t: ExtensionType) -> u16 {
    u16::from(t)
}

fn init_fixed<S, V>(data: &mut [u8], value: V)
where
    S: BaseState + Pack,
    V: Extension + bytemuck::Pod + Default + Copy,
{
    set_account_type::<S>(data).unwrap();
    let mut state = StateWithExtensionsMut::<S>::unpack(data).unwrap();
    *state.init_extension::<V>(false).unwrap() = value;
}

enum AccountExt {
    ImmutableOwner(ImmutableOwner),
    MemoTransfer(MemoTransfer),
    TransferFeeAmount(TransferFeeAmount),
}

fn build_token_account(
    builder: TokenAccountBuilder<AccountExt>,
    mint: &Address,
    owner: &Address,
    amount: u64,
) -> Vec<u8> {
    let mut data = builder.base_data(&mint.to_bytes(), &owner.to_bytes(), amount).unwrap();
    for (_, extension) in builder.into_extensions() {
        match extension {
            AccountExt::ImmutableOwner(v) => init_fixed::<Account, _>(&mut data, v),
            AccountExt::MemoTransfer(v) => init_fixed::<Account, _>(&mut data, v),
            AccountExt::TransferFeeAmount(v) => init_fixed::<Account, _>(&mut data, v),
        }
    }
    data
}

enum MintExt {
    MintCloseAuthority(MintCloseAuthority),
    PermanentDelegate(PermanentDelegate),
    MetadataPointer(MetadataPointer),
    ScaledUiAmount(ScaledUiAmountConfig),
    InterestBearing(InterestBearingConfig),
}

fn with(builder: MintBuilder<MintExt, TokenMetadata>, t: ExtensionType, e: MintExt) -> MintBuilder<MintExt, TokenMetadata> {
    builder.with_fixed_extension(kind(t), e)
}

fn build_mint(
    builder: MintBuilder<MintExt, TokenMetadata>,
    mint: &Address,
    decimals: u8,
    mint_authority: &Address,
) -> Result<Vec<u8>, LibraryError> {
    let metadata_len = match builder.inline_metadata() {
        Some(metadata) => metadata
            .get_packed_len()
            .map_err(|e| LibraryError::from_code(u64::from(e))),
        None => Ok(0),
    };
    let mut data = builder.base_data(decimals, &mint_authority.to_bytes(), metadata_len)?;
    let (fixed, inline) = builder.into_parts(&mint.to_bytes());
    for (_, extension) in fixed {
        match extension {
            MintExt::MintCloseAuthority(v) => init_fixed::<Mint, _>(&mut data, v),
            MintExt::PermanentDelegate(v) => init_fixed::<Mint, _>(&mut data, v),
            MintExt::MetadataPointer(v) => init_fixed::<Mint, _>(&mut data, v),
            MintExt::ScaledUiAmount(v) => init_fixed::<Mint, _>(&mut data, v),
            MintExt::InterestBearing(v) => init_fixed::<Mint, _>(&mut data, v),
        }
    }
    if let Some(inline) = inline {
        let pointer = MetadataPointer {
            authority: Address::new_from_array(inline.pointer.authority.unwrap()).into(),
            metadata_address: Address::new_from_array(inline.pointer.metadata_address.unwrap())
                .into(),
        };
        init_fixed::<Mint, _>(&mut data, pointer);
        let mut metadata = inline.metadata;
        metadata.update_authority = Address::new_from_array(inline.update_authority).into();
        metadata.mint = Address::new_from_array(inline.mint);
        let mut state = StateWithExtensionsMut::<Mint>::unpack(&mut data).unwrap();
        state.init_variable_len_extension(&metadata, false).unwrap();
    }
    Ok(data)
}

#[test]
fn account_builder_initializes_multiple_fixed_extensions() {
    let mint = Address::new_from_array([1; 32]);
    let owner = Address::new_from_array([2; 32]);
    let memo_transfer = MemoTransfer {
        require_incoming_transfer_memos: true.into(),
    };
    let builder = TokenAccountBuilder::new()
        .with_fixed_extension(kind(ExtensionType::ImmutableOwner), AccountExt::ImmutableOwner(ImmutableOwner::default()))
        .with_fixed_extension(kind(ExtensionType::MemoTransfer), AccountExt::MemoTransfer(memo_transfer))
        .with_fixed_extension(
            kind(ExtensionType::TransferFeeAmount),
            AccountExt::TransferFeeAmount(TransferFeeAmount::default()),
        );
    let data = build_token_account(builder, &mint, &owner, 42);

    let expected_len = ExtensionType::try_calculate_account_len::<Account>(&[
        ExtensionType::ImmutableOwner,
        ExtensionType::MemoTransfer,
        ExtensionType::TransferFeeAmount,
    ])
    .unwrap();
    assert_eq!(data.len(), expected_len);

    let state = StateWithExtensions::<Account>::unpack(&data).unwrap();
    assert_eq!(state.base.mint, mint);
    assert_eq!(state.base.owner, owner);
    assert_eq!(state.base.amount, 42);
    assert!(state.get_extension::<ImmutableOwner>().is_ok());
    assert!(state.get_extension::<TransferFeeAmount>().is_ok());
    let memo_transfer = state.get_extension::<MemoTransfer>().unwrap();
    assert!(bool::from(memo_transfer.require_incoming_transfer_memos));
}

#[test]
fn account_builder_duplicate_fixed_extension_uses_last_value() {
    let mint = Address::new_from_array([1; 32]);
    let owner = Address::new_from_array([2; 32]);
    let builder = TokenAccountBuilder::new()
        .with_fixed_extension(
            kind(ExtensionType::MemoTransfer),
            AccountExt::MemoTransfer(MemoTransfer {
                require_incoming_transfer_memos: false.into(),
            }),
        )
        .with_fixed_extension(
            kind(ExtensionType::MemoTransfer),
            AccountExt::MemoTransfer(MemoTransfer {
                require_incoming_transfer_memos: true.into(),
            }),
        );
    let data = build_token_account(builder, &mint, &owner, 42);
    let state = StateWithExtensions::<Account>::unpack(&data).unwrap();
    let memo_transfer = state.get_extension::<MemoTransfer>().unwrap();
    assert!(bool::from(memo_transfer.require_incoming_transfer_memos));
}

#[test]
fn mint_builder_initializes_multiple_fixed_extensions() {
    let mint = Address::new_from_array([3; 32]);
    let authority = Address::new_from_array([4; 32]);
    let builder = with(
        with(
            MintBuilder::new(),
            ExtensionType::MintCloseAuthority,
            MintExt::MintCloseAuthority(MintCloseAuthority::default()),
        ),
        ExtensionType::PermanentDelegate,
        MintExt::PermanentDelegate(PermanentDelegate::default()),
    );
    let data = build_mint(builder, &mint, 6, &authority).unwrap();

    let expected_len = ExtensionType::try_calculate_account_len::<Mint>(&[
        ExtensionType::MintCloseAuthority,
        ExtensionType::PermanentDelegate,
    ])
    .unwrap();
    assert_eq!(data.len(), expected_len);

    let state = StateWithExtensions::<Mint>::unpack(&data).unwrap();
    assert_eq!(state.base.decimals, 6);
    assert!(state.get_extension::<MintCloseAuthority>().is_ok());
    assert!(state.get_extension::<PermanentDelegate>().is_ok());
}

#[test]
fn initializes_inline_metadata() {
    let mint = Address::new_from_array([3; 32]);
    let authority = Address::new_from_array([4; 32]);
    let metadata_authority = Address::new_from_array([5; 32]);
    let metadata = TokenMetadata {
        name: "Builder Token".to_string(),
        symbol: "BLDR".to_string(),
        uri: "https://example.com/builder.json".to_string(),
        ..Default::default()
    };
    let builder = MintBuilder::new().with_inline_metadata(metadata, metadata_authority.to_bytes());
    let data = build_mint(builder, &mint, 9, &authority).unwrap();

    let state = StateWithExtensions::<Mint>::unpack(&data).unwrap();
    let pointer = state.get_extension::<MetadataPointer>().unwrap();
    assert_eq!(pointer.authority, metadata_authority.into());
    assert_eq!(pointer.metadata_address, mint.into());

    let metadata = state.get_variable_len_extension::<TokenMetadata>().unwrap();
    assert_eq!(metadata.name, "Builder Token");
    assert_eq!(metadata.symbol, "BLDR");
    assert_eq!(metadata.uri, "https://example.com/builder.json");
    assert_eq!(metadata.mint, mint);
    assert_eq!(metadata.update_authority, metadata_authority.into());
}

#[test]
fn rejects_invalid_extension_combination() {
    let mint = Address::new_from_array([3; 32]);
    let authority = Address::new_from_array([4; 32]);
    let builder = with(
        with(
            MintBuilder::new(),
            ExtensionType::ScaledUiAmount,
            MintExt::ScaledUiAmount(ScaledUiAmountConfig::default()),
        ),
        ExtensionType::InterestBearingConfig,
        MintExt::InterestBearing(InterestBearingConfig::default()),
    );
    let err = build_mint(builder, &mint, 6, &authority).unwrap_err();
    assert_eq!(
        ProgramError::from(err.to_code()),
        ProgramError::from(TokenError::InvalidExtensionCombination)
    );
}

#[test]
fn mint_builder_duplicate_fixed_extension_uses_last_value() {
    let mint = Address::new_from_array([3; 32]);
    let authority = Address::new_from_array([4; 32]);
    let first_authority = Address::new_from_array([6; 32]);
    let second_authority = Address::new_from_array([7; 32]);
    let builder = with(
        with(
            MintBuilder::new(),
            ExtensionType::MintCloseAuthority,
            MintExt::MintCloseAuthority(MintCloseAuthority {
                close_authority: first_authority.into(),
            }),
        ),
        ExtensionType::MintCloseAuthority,
        MintExt::MintCloseAuthority(MintCloseAuthority {
            close_authority: second_authority.into(),
        }),
    );
    let data = build_mint(builder, &mint, 6, &authority).unwrap();
    let state = StateWithExtensions::<Mint>::unpack(&data).unwrap();
    let close_authority = state.get_extension::<MintCloseAuthority>().unwrap();
    assert_eq!(close_authority.close_authority, second_authority.into());
}

#[test]
fn initializes_external_metadata_pointer() {
    let mint = Address::new_from_array([3; 32]);
    let external_metadata_addr = Address::new_from_array([8; 32]);
    let authority = Address::new_from_array([4; 32]);
    let builder = with(
        MintBuilder::new(),
        ExtensionType::MetadataPointer,
        MintExt::MetadataPointer(MetadataPointer {
            authority: authority.into(),
            metadata_address: external_metadata_addr.into(),
        }),
    );
    let data = build_mint(builder, &mint, 6, &authority).unwrap();
    let expected_len =
        ExtensionType::try_calculate_account_len::<Mint>(&[ExtensionType::MetadataPointer])
            .unwrap();
    assert_eq!(data.len(), expected_len);
    let state = StateWithExtensions::<Mint>::unpack(&data).unwrap();
    let pointer = state.get_extension::<MetadataPointer>().unwrap();
    assert_eq!(pointer.metadata_address, external_metadata_addr.into());
}

/// The value sizes that the length contract states, by type tag; `None` for
/// the variable-length token metadata.
const VALUE_LEN: [Option<usize>; 29] = [
    Some(0), Some(108), Some(8), Some(32), Some(65), Some(295), Some(1), Some(0), Some(1),
    Some(0), Some(52), Some(1), Some(32), Some(0), Some(64), Some(1), Some(129), Some(64),
    Some(64), None, Some(64), Some(80), Some(64), Some(72), Some(196), Some(56), Some(33),
    Some(0), Some(32),
];

#[test]
fn stated_extension_sizes_match_token_2022() {
    for (tag, size) in VALUE_LEN.iter().enumerate() {
        let t = ExtensionType::try_from(tag as u16).unwrap();
        let len = ExtensionType::try_calculate_account_len::<Mint>(&[t]);
        match size {
            Some(size) => assert_eq!(len, Ok(165 + 1 + 4 + size)),
            None => assert_eq!(len, Err(ProgramError::InvalidArgument)),
        }
    }
    let twice = ExtensionType::try_calculate_account_len::<Account>(&[
        ExtensionType::CpiGuard,
        ExtensionType::CpiGuard,
    ]);
    assert_eq!(twice, Ok(165 + 1 + 4 + 1));
}

#[test]
fn extension_append_is_decided_before_writing() {
    let t22 = pinocchio_token_2022::ID.to_bytes();
    let legacy = pinocchio_token::ID.to_bytes();
    assert_eq!(
        extension_append_len(&legacy, Ok(false), 165, Ok(200)),
        Err(LibraryError::IncorrectProgramId)
    );
    assert_eq!(
        extension_append_len(&t22, Err(LibraryError::InvalidAccountData), 165, Ok(200)),
        Err(LibraryError::InvalidAccountData)
    );
    assert_eq!(extension_append_len(&t22, Ok(true), 165, Ok(200)), Ok(None));
    assert_eq!(extension_append_len(&t22, Ok(false), 165, Ok(200)), Ok(Some(200)));
    assert_eq!(extension_append_len(&t22, Ok(false), 300, Ok(200)), Ok(Some(300)));
    assert_eq!(
        extension_append_len(&t22, Ok(false), 165, Err(LibraryError::InvalidArgument)),
        Err(LibraryError::InvalidArgument)
    );
}

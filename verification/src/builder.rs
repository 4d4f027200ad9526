//! The state of the token-account and mint builders: which extensions a new
//! account will carry, and how long its data must be.
use vstd::prelude::*;
use spl_token_2022_interface::extension::ExtensionType as SplExtensionType;
use crate::error::ProgramError;
use crate::extension_rules::{
    all_extension_codes, check_mint_extension_combination, invalid_mint_extension_combination,
    mint_extension_combination, token_2022_account_len,
    token_2022_mint_account_len, token_2022_token_account_len,
};
use crate::extension_set::{FixedExtensions, has_kind, kinds_distinct, kinds_of, without_kind};
use crate::layout::{account_len, mint_len};
use crate::pack::{
    lemma_layout_lengths, mint_layout, spl_mint_len, token_account_layout,
};
use crate::staging::{
    staged_mint, staged_token_account, write_staged_mint, write_staged_token_account, zeros,
};

verus! {

/// The Token-2022 type tag of the metadata-pointer extension.
pub open spec fn metadata_pointer_kind() -> u16 {
    18
}

/// `u16::from(spl_token_2022_interface::extension::ExtensionType::MetadataPointer)`,
/// the `#[repr(u16)]` discriminant of that variant.
#[verifier::external_body]
pub(crate) fn metadata_pointer_type() -> (kind: u16)
    ensures
        kind == metadata_pointer_kind(),
{
    u16::from(SplExtensionType::MetadataPointer)
}

/// The length of the TLV header (type tag and length) of an extension entry.
pub const TLV_HEADER_LEN: usize = 4;

/// Extensions to initialize on a new token account.
pub struct TokenAccountBuilder<E> {
    fixed_extensions: FixedExtensions<E>,
}

impl<E> TokenAccountBuilder<E> {
    /// The extensions set so far, in order.
    pub closed spec fn view(self) -> Seq<(u16, E)> {
        self.fixed_extensions.view()
    }

    /// A builder with no extensions.
    pub fn new() -> (r: Self)
        ensures
            r.view() == Seq::<(u16, E)>::empty(),
    {
        TokenAccountBuilder { fixed_extensions: FixedExtensions::new() }
    }

    /// Sets the extension of type `kind` to `extension`, replacing an
    /// earlier value of that type.
    pub fn with_fixed_extension(self, kind: u16, extension: E) -> (r: Self)
        ensures
            r.view() == without_kind(self.view(), kind).push((kind, extension)),
            kinds_distinct(r.view()),
    {
        let TokenAccountBuilder { mut fixed_extensions } = self;
        fixed_extensions.push_fixed_extension(kind, extension);
        TokenAccountBuilder { fixed_extensions }
    }

    /// The extension types the account will carry, in order.
    pub fn extension_types(&self) -> (r: Vec<u16>)
        ensures
            r@ == kinds_of(self.view()),
    {
        self.fixed_extensions.extension_types()
    }

    /// The data of the new token account before its extensions are
    /// initialized: as long as Token-2022 computes for the account's extension
    /// types, the staged base state for `mint`, `owner` and `amount` first
    /// and zeros after it.
    pub fn base_data(&self, mint: &[u8; 32], owner: &[u8; 32], amount: u64) -> (r: Result<
        Vec<u8>,
        ProgramError,
    >)
        ensures
            r is Ok <==> token_2022_account_len(kinds_of(self.view()), account_len()) is Ok,
            r matches Err(e) ==> token_2022_account_len(kinds_of(self.view()), account_len()) == Err::<
                usize,
                ProgramError,
            >(e),
            r matches Ok(d) ==> {
                &&& token_2022_account_len(kinds_of(self.view()), account_len()) == Ok::<usize, ProgramError>(
                    d.len(),
                )
                &&& d@.len() >= account_len()
                &&& d@ == token_account_layout(
                    staged_token_account(*mint, *owner, amount, None),
                    zeros(account_len()),
                ) + zeros((d@.len() - account_len()) as nat)
            },
    {
        let kinds = self.extension_types();
        let len = match token_2022_token_account_len(&kinds) {
            Ok(n) => n,
            Err(e) => {
                return Err(e);
            },
        };
        let mut data: Vec<u8> = vec![0u8; len];
        let ghost zero = data@;
        write_staged_token_account(&mut data, mint, owner, amount, None);
        proof {
            let s = staged_token_account(*mint, *owner, amount, None);
            let z = zeros(account_len());
            assert(zero.subrange(76, 108) =~= z.subrange(76, 108));
            assert(zero.subrange(113, 121) =~= z.subrange(113, 121));
            assert(zero.subrange(133, 165) =~= z.subrange(133, 165));
            assert(token_account_layout(s, zero) == token_account_layout(s, z));
            lemma_layout_lengths(s, staged_mint(0, *mint), zero);
            assert(data@.len() == len);
            assert(zero.subrange(account_len() as int, zero.len() as int) =~= zeros(
                (zero.len() - account_len()) as nat,
            ));
        }
        Ok(data)
    }

    /// The extensions to initialize, in order.
    pub fn into_extensions(self) -> (r: Vec<(u16, E)>)
        ensures
            r@ == self.view(),
            kinds_distinct(r@),
    {
        self.fixed_extensions.into_entries()
    }
}

/// Extensions to initialize on a new mint, and token metadata to store
/// inline (with a metadata pointer to the mint itself) under an authority.
pub struct MintBuilder<E, M> {
    fixed_extensions: FixedExtensions<E>,
    inline_metadata: Option<(M, [u8; 32])>,
}

/// The data length of a new mint: the length for its fixed extensions, and
/// with inline metadata also a TLV header and the packed metadata
/// (saturating); a mint with no extension types starts from the base mint
/// and its account-type byte.
pub open spec fn spec_mint_len(
    extension_types_empty: bool,
    has_inline_metadata: bool,
    fixed_len: usize,
    metadata_len: usize,
) -> usize {
    if has_inline_metadata {
        let start = if extension_types_empty {
            (mint_len() + 1) as int
        } else {
            fixed_len as int
        };
        let with_header = if start + 4 > usize::MAX {
            usize::MAX as int
        } else {
            start + 4
        };
        if with_header + metadata_len > usize::MAX {
            usize::MAX
        } else {
            (with_header + metadata_len) as usize
        }
    } else {
        fixed_len
    }
}

/// The mint's extension types: those set, then the metadata pointer when
/// metadata is stored inline and no pointer is set.
pub open spec fn spec_mint_extension_types<E, M>(
    fixed: Seq<(u16, E)>,
    inline_metadata: Option<(M, [u8; 32])>,
) -> Seq<u16> {
    if inline_metadata is Some && !has_kind(fixed, metadata_pointer_kind()) {
        kinds_of(fixed).push(metadata_pointer_kind())
    } else {
        kinds_of(fixed)
    }
}

/// The fields of the metadata pointer written with inline metadata.
#[derive(Clone, Copy, Debug)]
pub struct MetadataPointerFields {
    /// Who may change the pointer.
    pub authority: Option<[u8; 32]>,
    /// Where the metadata is stored.
    pub metadata_address: Option<[u8; 32]>,
}

/// Token metadata to write into a mint, with what Token-2022 stores beside
/// it: the metadata's update authority and mint, and the metadata pointer.
pub struct InlineMetadata<M> {
    /// The metadata, before its update authority and mint are set.
    pub metadata: M,
    /// The update authority to store in the metadata.
    pub update_authority: [u8; 32],
    /// The mint to store in the metadata.
    pub mint: [u8; 32],
    /// The metadata pointer to initialize before the metadata.
    pub pointer: MetadataPointerFields,
}

/// Inline metadata of the mint at `mint`: its update authority is the
/// metadata authority, it names the mint, and the pointer, under the same
/// authority, points at the mint itself.
pub open spec fn spec_inline_metadata<M>(inline: Option<(M, [u8; 32])>, mint: [u8; 32]) -> Option<
    InlineMetadata<M>,
> {
    match inline {
        Some((metadata, authority)) => Some(
            InlineMetadata {
                metadata,
                update_authority: authority,
                mint,
                pointer: MetadataPointerFields {
                    authority: Some(authority),
                    metadata_address: Some(mint),
                },
            },
        ),
        None => None,
    }
}

/// The data length of a new mint, or why it cannot be made: Token-2022
/// first judges the combination of its extension types, then computes the
/// length for them; with inline metadata the metadata's packed length
/// (`metadata_len`, which may itself have failed) is added after a TLV
/// header.
pub open spec fn spec_mint_data_len<E, M>(
    fixed: Seq<(u16, E)>,
    inline: Option<(M, [u8; 32])>,
    metadata_len: Result<usize, ProgramError>,
) -> Result<usize, ProgramError> {
    let kinds = spec_mint_extension_types(fixed, inline);
    match mint_extension_combination(kinds) {
        Err(e) => Err(e),
        Ok(_) => match token_2022_account_len(kinds, mint_len()) {
            Err(e) => Err(e),
            Ok(fixed_len) => if inline is Some {
                match metadata_len {
                    Err(e) => Err(e),
                    Ok(m) => Ok(spec_mint_len(kinds.len() == 0, true, fixed_len, m)),
                }
            } else {
                Ok(fixed_len)
            },
        },
    }
}

impl<E, M> MintBuilder<E, M> {
    #[verifier::type_invariant]
    spec fn one_metadata_source(self) -> bool {
        self.inline_metadata is Some ==> !has_kind(
            self.fixed_extensions.view(),
            metadata_pointer_kind(),
        )
    }

    /// The extensions set so far, in order.
    pub closed spec fn fixed(self) -> Seq<(u16, E)> {
        self.fixed_extensions.view()
    }

    /// The metadata to store inline, with its update authority.
    pub closed spec fn inline(self) -> Option<(M, [u8; 32])> {
        self.inline_metadata
    }

    /// A builder with no extensions and no inline metadata.
    pub fn new() -> (r: Self)
        ensures
            r.fixed() == Seq::<(u16, E)>::empty(),
            r.inline() is None,
    {
        MintBuilder { fixed_extensions: FixedExtensions::new(), inline_metadata: None }
    }

    /// Sets the extension of type `kind` to `extension`, replacing an
    /// earlier value of that type; setting a metadata pointer drops any
    /// inline metadata.
    pub fn with_fixed_extension(self, kind: u16, extension: E) -> (r: Self)
        ensures
            r.fixed() == without_kind(self.fixed(), kind).push((kind, extension)),
            kinds_distinct(r.fixed()),
            r.inline() == if kind == metadata_pointer_kind() {
                None
            } else {
                self.inline()
            },
    {
        proof {
            use_type_invariant(&self);
        }
        let MintBuilder { mut fixed_extensions, mut inline_metadata } = self;
        if kind == metadata_pointer_type() {
            inline_metadata = None;
        }
        fixed_extensions.push_fixed_extension(kind, extension);
        proof {
            if inline_metadata is Some {
                assert(has_kind(fixed_extensions.view(), metadata_pointer_kind()) ==> has_kind(
                    self.fixed(),
                    metadata_pointer_kind(),
                )) by {
                    crate::extension_set::lemma_without_kind_members(self.fixed(), kind);
                    if has_kind(fixed_extensions.view(), metadata_pointer_kind()) {
                        let i = choose|i: int|
                            0 <= i < fixed_extensions.view().len() && fixed_extensions.view()[i].0
                                == metadata_pointer_kind();
                        let w = without_kind(self.fixed(), kind);
                        assert(i < w.len());
                        assert(fixed_extensions.view()[i] == w[i]);
                        let j = choose|j: int| 0 <= j < self.fixed().len() && self.fixed()[j] == w[i];
                        assert(self.fixed()[j].0 == metadata_pointer_kind());
                    }
                }
            }
        }
        MintBuilder { fixed_extensions, inline_metadata }
    }

    /// Stores `extension` inline under `metadata_authority`, with a pointer
    /// to the mint itself; a metadata pointer set earlier is dropped.
    pub fn with_inline_metadata(self, extension: M, metadata_authority: [u8; 32]) -> (r: Self)
        ensures
            r.fixed() == without_kind(self.fixed(), metadata_pointer_kind()),
            r.inline() == Some((extension, metadata_authority)),
    {
        let MintBuilder { mut fixed_extensions, inline_metadata: _ } = self;
        let kind = metadata_pointer_type();
        fixed_extensions.remove_fixed_extension(kind);
        proof {
            crate::extension_set::lemma_without_kind_distinct(
                without_kind(self.fixed(), kind),
                kind,
            );
            crate::extension_set::lemma_without_kind_members(self.fixed(), kind);
            assert(!has_kind(fixed_extensions.view(), kind)) by {
                if has_kind(fixed_extensions.view(), kind) {
                    let i = choose|i: int|
                        0 <= i < fixed_extensions.view().len() && fixed_extensions.view()[i].0
                            == kind;
                    assert(fixed_extensions.view()[i].0 != kind);
                }
            }
        }
        MintBuilder { fixed_extensions, inline_metadata: Some((extension, metadata_authority)) }
    }

    /// The metadata to store inline, if any.
    pub fn inline_metadata(&self) -> (r: Option<&M>)
        ensures
            r == match self.inline() {
                Some(p) => Some(&p.0),
                None => None::<&M>,
            },
    {
        match &self.inline_metadata {
            Some((metadata, _)) => Some(metadata),
            None => None,
        }
    }

    /// Whether metadata is stored inline.
    pub fn has_inline_metadata(&self) -> (r: bool)
        ensures
            r == self.inline() is Some,
    {
        self.inline_metadata.is_some()
    }

    /// The extension types the mint will carry, in order: those set, then
    /// the metadata pointer when metadata is stored inline.
    pub fn extension_types(&self) -> (r: Vec<u16>)
        ensures
            r@ == spec_mint_extension_types(self.fixed(), self.inline()),
    {
        let mut extension_types = self.fixed_extensions.extension_types();
        let kind = metadata_pointer_type();
        if self.inline_metadata.is_some() && !self.fixed_extensions.contains(kind) {
            extension_types.push(kind);
        }
        extension_types
    }

    /// The data length of the mint, given `fixed_len`, the account length
    /// that Token-2022 computes for the mint's extension types, and
    /// `metadata_len`, the packed length of the inline metadata.
    pub fn mint_len(&self, fixed_len: usize, metadata_len: usize) -> (r: usize)
        ensures
            r == spec_mint_len(
                spec_mint_extension_types(self.fixed(), self.inline()).len() == 0,
                self.inline() is Some,
                fixed_len,
                metadata_len,
            ),
    {
        let extension_types = self.extension_types();
        let mut mint_len = fixed_len;
        if self.inline_metadata.is_some() {
            if extension_types.len() == 0 {
                mint_len = spl_mint_len() + 1;
            }
            mint_len = mint_len.saturating_add(TLV_HEADER_LEN).saturating_add(metadata_len);
        }
        mint_len
    }

    /// The data of the new mint before its extensions are initialized: as
    /// long as `spec_mint_data_len` says, given `metadata_len`, the packed
    /// length of the inline metadata (ignored without inline metadata); the
    /// staged base mint with `decimals` and `mint_authority` first and zeros
    /// after it.
    pub fn base_data(
        &self,
        decimals: u8,
        mint_authority: &[u8; 32],
        metadata_len: Result<usize, ProgramError>,
    ) -> (r: Result<Vec<u8>, ProgramError>)
        ensures
            r is Ok <==> spec_mint_data_len(self.fixed(), self.inline(), metadata_len) is Ok,
            r matches Err(e) ==> spec_mint_data_len(self.fixed(), self.inline(), metadata_len)
                == Err::<usize, ProgramError>(e),
            r matches Ok(d) ==> {
                &&& spec_mint_data_len(self.fixed(), self.inline(), metadata_len) == Ok::<
                    usize,
                    ProgramError,
                >(d.len())
                &&& d@.len() >= mint_len()
                &&& d@ == mint_layout(staged_mint(decimals, *mint_authority), zeros(mint_len()))
                    + zeros((d@.len() - mint_len()) as nat)
            },
    {
        let kinds = self.extension_types();
        match check_mint_extension_combination(&kinds) {
            Ok(()) => {},
            Err(e) => {
                return Err(e);
            },
        }
        let fixed_len = match token_2022_mint_account_len(&kinds) {
            Ok(n) => n,
            Err(e) => {
                return Err(e);
            },
        };
        let packed_metadata_len = if self.inline_metadata.is_some() {
            match metadata_len {
                Ok(m) => m,
                Err(e) => {
                    return Err(e);
                },
            }
        } else {
            0
        };
        let len = self.mint_len(fixed_len, packed_metadata_len);
        let mut data: Vec<u8> = vec![0u8; len];
        let ghost zero = data@;
        write_staged_mint(&mut data, decimals, mint_authority);
        proof {
            let m = staged_mint(decimals, *mint_authority);
            let z = zeros(mint_len());
            assert(zero.subrange(4, 36) =~= z.subrange(4, 36));
            assert(zero.subrange(50, 82) =~= z.subrange(50, 82));
            assert(mint_layout(m, zero) == mint_layout(m, z));
            lemma_layout_lengths(
                staged_token_account(*mint_authority, *mint_authority, 0, None),
                m,
                zeros(account_len()),
            );
            assert(mint_layout(m, zeros(account_len())) == mint_layout(m, z)) by {
                assert(zeros(account_len()).subrange(4, 36) =~= z.subrange(4, 36));
                assert(zeros(account_len()).subrange(50, 82) =~= z.subrange(50, 82));
            }
            assert(data@.len() == len);
            assert(zero.subrange(mint_len() as int, zero.len() as int) =~= zeros(
                (zero.len() - mint_len()) as nat,
            ));
        }
        Ok(data)
    }

    /// The extensions to initialize, in order, and the inline metadata of
    /// the mint at `mint`, with its update authority, mint and pointer set.
    pub fn into_parts(self, mint: &[u8; 32]) -> (r: (Vec<(u16, E)>, Option<InlineMetadata<M>>))
        ensures
            r.0@ == self.fixed(),
            r.1 == spec_inline_metadata(self.inline(), *mint),
            kinds_distinct(r.0@),
            r.1 is Some ==> !has_kind(r.0@, metadata_pointer_kind()),
    {
        proof {
            use_type_invariant(&self);
        }
        let MintBuilder { fixed_extensions, inline_metadata } = self;
        let inline = match inline_metadata {
            Some((metadata, authority)) => Some(
                InlineMetadata {
                    metadata,
                    update_authority: authority,
                    mint: *mint,
                    pointer: MetadataPointerFields {
                        authority: Some(authority),
                        metadata_address: Some(*mint),
                    },
                },
            ),
            None => None,
        };
        (fixed_extensions.into_entries(), inline)
    }
}

/// A mint never carries both inline metadata and a separately set metadata
/// pointer, and with inline metadata its extension types list the pointer
/// exactly once, last.
pub proof fn lemma_inline_metadata_pointer_listed_once<E, M>(
    fixed: Seq<(u16, E)>,
    inline: Option<(M, [u8; 32])>,
)
    requires
        kinds_distinct(fixed),
        inline is Some ==> !has_kind(fixed, metadata_pointer_kind()),
    ensures
        inline is Some ==> spec_mint_extension_types(fixed, inline).last()
            == metadata_pointer_kind(),
        forall|i: int, j: int|
            0 <= i < j < spec_mint_extension_types(fixed, inline).len() ==> spec_mint_extension_types(
                fixed,
                inline,
            )[i] != spec_mint_extension_types(fixed, inline)[j],
{
    let t = spec_mint_extension_types(fixed, inline);
    let k = kinds_of(fixed);
    assert forall|i: int, j: int| 0 <= i < j < t.len() implies t[i] != t[j] by {
        if j < k.len() {
            assert(t[i] == fixed[i].0);
            assert(t[j] == fixed[j].0);
        } else {
            assert(t[i] == fixed[i].0);
            if t[i] == metadata_pointer_kind() {
                assert(has_kind(fixed, metadata_pointer_kind()));
            }
        }
    }
}

/// The metadata pointer that inline metadata adds changes nothing in which
/// extensions a mint may combine: every other type is among the mint's
/// extension types exactly when it was set, and every type is a known one
/// when those set are.
proof fn lemma_mint_types_keep_set_kinds<E, M>(fixed: Seq<(u16, E)>, inline: Option<(M, [u8; 32])>)
    ensures
        forall|c: u16|
            c != metadata_pointer_kind() ==> (#[trigger] spec_mint_extension_types(
                fixed,
                inline,
            ).contains(c) <==> kinds_of(fixed).contains(c)),
        all_extension_codes(kinds_of(fixed)) ==> all_extension_codes(
            spec_mint_extension_types(fixed, inline),
        ),
{
    let k = kinds_of(fixed);
    let t = spec_mint_extension_types(fixed, inline);
    assert forall|c: u16| c != metadata_pointer_kind() implies (#[trigger] t.contains(c)
        <==> k.contains(c)) by {
        if t.contains(c) {
            let i = choose|i: int| 0 <= i < t.len() && t[i] == c;
            assert(i < k.len() && k[i] == c);
        }
        if k.contains(c) {
            let i = choose|i: int| 0 <= i < k.len() && k[i] == c;
            assert(t[i] == c);
        }
    }
}

/// A mint whose extension types form a combination Token-2022 refuses gets
/// no data: building it fails with `InvalidExtensionCombination` (custom
/// error 51), whether or not its metadata is stored inline and whatever the
/// metadata's length. In particular a scaled UI amount never goes with an
/// interest-bearing config, and a confidential mint-burn never goes without
/// a confidential transfer mint.
pub proof fn lemma_refused_combination_gets_no_data<E, M>(
    fixed: Seq<(u16, E)>,
    inline: Option<(M, [u8; 32])>,
    metadata_len: Result<usize, ProgramError>,
)
    requires
        all_extension_codes(kinds_of(fixed)),
    ensures
        invalid_mint_extension_combination(kinds_of(fixed)) ==> spec_mint_data_len(
            fixed,
            inline,
            metadata_len,
        ) == Err::<usize, ProgramError>(ProgramError::Custom(51)),
        has_kind(fixed, 25) && has_kind(fixed, 10) ==> spec_mint_data_len(
            fixed,
            inline,
            metadata_len,
        ) == Err::<usize, ProgramError>(ProgramError::Custom(51)),
        has_kind(fixed, 24) && !has_kind(fixed, 4) ==> spec_mint_data_len(
            fixed,
            inline,
            metadata_len,
        ) == Err::<usize, ProgramError>(ProgramError::Custom(51)),
{
    let k = kinds_of(fixed);
    let t = spec_mint_extension_types(fixed, inline);
    lemma_mint_types_keep_set_kinds(fixed, inline);
    assert(t.contains(1u16) == k.contains(1u16));
    assert(t.contains(4u16) == k.contains(4u16));
    assert(t.contains(9u16) == k.contains(9u16));
    assert(t.contains(10u16) == k.contains(10u16));
    assert(t.contains(16u16) == k.contains(16u16));
    assert(t.contains(24u16) == k.contains(24u16));
    assert(t.contains(25u16) == k.contains(25u16));
    assert forall|c: u16| has_kind(fixed, c) <==> #[trigger] k.contains(c) by {
        if has_kind(fixed, c) {
            let i = choose|i: int| 0 <= i < fixed.len() && fixed[i].0 == c;
            assert(k[i] == c);
        }
        if k.contains(c) {
            let i = choose|i: int| 0 <= i < k.len() && k[i] == c;
            assert(fixed[i].0 == c);
        }
    }
}

} // verus!

//! Symbol resolver: recovers the native names of runtime entry points from
//! the on-disk image of the engine module by walking a positional table.

use crate::symbol_list::names_of;
use crate::symbol_list::symbol_list;
use crate::symbol_list::symbol_names;
use fnv::FnvHashMap;
use pelite::pe64::Pe;
use pelite::pe64::PeFile;
use vstd::prelude::*;

verus! {

/// Relative virtual address of the first table entry.
pub const START_RVA: u32 = 0x782c92;

/// Distance from the first entry to the second.
pub const FIRST_STRIDE: u32 = 0x28;

/// Distance between all later entries.
pub const STRIDE: u32 = 0x26;

/// Width of the displacement field that opens every entry.
pub const DISPLACEMENT_WIDTH: u32 = 4;

/// Why no table could be built. `index` counts table entries from zero.
#[derive(Debug, Clone, Copy, PartialEq, Eq, Structural)]
pub enum ResolveError {
    /// The module file could not be opened.
    Unavailable,
    /// The image's headers were not accepted.
    Headers,
    /// The entry's own address has no place in the file.
    EntryRva { index: usize },
    /// The entry's displacement field runs past the end of the image.
    Displacement { index: usize },
    /// The address the entry points to has no place in the file.
    NameRva { index: usize },
    /// The name the entry points to is not terminated inside the image.
    Name { index: usize },
}

/// `pelite::pe64::PeFile`: a view into the bytes of a module file whose
/// headers were accepted.
#[verifier::external_type_specification]
#[verifier::external_body]
pub struct ExPeFile<'a>(PeFile<'a>);

/// `pelite::Error`: why headers were refused or an address was not
/// converted.
#[verifier::external_type_specification]
#[verifier::external_body]
pub struct ExPeError(pelite::Error);

/// `fnv::FnvHasher`: the hasher of the name map.
#[verifier::external_type_specification]
#[verifier::external_body]
pub struct ExFnvHasher(fnv::FnvHasher);

/// `std::hash::BuildHasherDefault`: makes the name map's hashers.
#[verifier::external_type_specification]
#[verifier::external_body]
#[verifier::reject_recursive_types(H)]
pub struct ExBuildHasherDefault<H>(std::hash::BuildHasherDefault<H>);

/// The bytes a parsed file view was made from.
pub uninterp spec fn pe_image(pe: PeFile) -> Seq<u8>;

/// The file offset that the headers and section table of `image` assign to
/// `rva`, if any.
pub uninterp spec fn rva_file_offset(image: Seq<u8>, rva: u32) -> Option<usize>;

/// What a name map holds: native name bytes by symbolic name.
pub uninterp spec fn symbol_map_entries(names: FnvHashMap<String, Vec<u8>>) -> Map<
    Seq<char>,
    Seq<u8>,
>;

/// `pelite::pe64::PeFile::from_bytes`. Whether the headers are accepted
/// depends on the bytes and on where they lie in memory, so nothing is said
/// of failure; a view that is handed out holds exactly the bytes given.
#[verifier::external_body]
fn pe_from_bytes<'a>(image: &'a [u8]) -> (res: Result<PeFile<'a>, pelite::Error>)
    ensures
        res matches Ok(pe) ==> pe_image(pe) == image@,
{
    PeFile::from_bytes(image)
}

/// `pelite::pe64::Pe::rva_to_file_offset` on a file view: the conversion is
/// decided by the view's bytes and the address alone.
#[verifier::external_body]
fn pe_rva_to_file_offset(pe: &PeFile, rva: u32) -> (res: Result<usize, pelite::Error>)
    ensures
        match res {
            Ok(offset) => rva_file_offset(pe_image(*pe), rva) == Some(offset),
            Err(_) => rva_file_offset(pe_image(*pe), rva) is None,
        },
{
    pe.rva_to_file_offset(rva)
}

/// `fnv::FnvHashMap::default`: an empty map.
#[verifier::external_body]
fn symbol_map_new() -> (table: FnvHashMap<String, Vec<u8>>)
    ensures
        symbol_map_entries(table) == (Map::<Seq<char>, Seq<u8>>::empty()),
{
    FnvHashMap::default()
}

/// `HashMap::insert` on an FNV-hashed map: the name now maps to the bytes
/// given, whatever it mapped to before; other names are untouched.
#[verifier::external_body]
fn symbol_map_insert(table: &mut FnvHashMap<String, Vec<u8>>, name: String, native: Vec<u8>)
    ensures
        symbol_map_entries(*final(table)) == symbol_map_entries(*old(table)).insert(
            name@,
            native@,
        ),
{
    table.insert(name, native);
}

/// `HashMap::get` on an FNV-hashed map.
#[verifier::external_body]
fn symbol_map_get<'a>(table: &'a FnvHashMap<String, Vec<u8>>, name: &str) -> (native: Option<
    &'a Vec<u8>,
>)
    ensures
        match native {
            Some(bytes) => symbol_map_entries(*table).contains_key(name@) && symbol_map_entries(
                *table,
            )[name@] == bytes@,
            None => !symbol_map_entries(*table).contains_key(name@),
        },
{
    table.get(name)
}

/// Address of the table entry at `index`: the first stride is wider than the
/// rest.
pub open spec fn entry_rva(index: nat) -> int {
    if index == 0 {
        START_RVA as int
    } else {
        START_RVA + FIRST_STRIDE + (index - 1) * STRIDE
    }
}

/// The four bytes at `offset` read as a little-endian unsigned number.
pub open spec fn le_u32(image: Seq<u8>, offset: int) -> int {
    image[offset] + image[offset + 1] * 0x100 + image[offset + 2] * 0x1_0000 + image[offset + 3]
        * 0x100_0000
}

/// A 32-bit pattern read as a two's complement number.
pub open spec fn as_signed(raw: int) -> int {
    if raw >= 0x8000_0000 {
        raw - 0x1_0000_0000
    } else {
        raw
    }
}

/// The signed displacement stored at `offset`, when all four bytes are there.
pub open spec fn displacement_at(image: Seq<u8>, offset: int) -> Option<int> {
    if 0 <= offset && offset + DISPLACEMENT_WIDTH <= image.len() {
        Some(as_signed(le_u32(image, offset)))
    } else {
        None
    }
}

/// The address an entry refers to: its own position, past the displacement
/// field, moved by the displacement.
pub open spec fn name_rva_of(entry: int, displacement: int) -> Option<u32> {
    let target = entry + DISPLACEMENT_WIDTH + displacement;
    if 0 <= target <= u32::MAX {
        Some(target as u32)
    } else {
        None
    }
}

/// `end` is the first zero byte at or after `offset`.
pub open spec fn terminated_at(image: Seq<u8>, offset: int, end: int) -> bool {
    &&& 0 <= offset <= end < image.len()
    &&& image[end] == 0
    &&& forall|i: int| offset <= i < end ==> image[i] != 0
}

/// The zero-terminated string that starts at `offset`, without its
/// terminator; nothing when the image ends before a terminator.
pub open spec fn c_string_at(image: Seq<u8>, offset: int) -> Option<Seq<u8>> {
    if exists|end: int| terminated_at(image, offset, end) {
        Some(image.subrange(offset, choose|end: int| terminated_at(image, offset, end)))
    } else {
        None
    }
}

/// The native name that the table entry at `index` leads to.
pub open spec fn entry_name(image: Seq<u8>, index: nat) -> Result<Seq<u8>, ResolveError> {
    let failed_entry = Err::<Seq<u8>, ResolveError>(ResolveError::EntryRva { index: index as usize });
    if entry_rva(index) > u32::MAX {
        failed_entry
    } else {
        match rva_file_offset(image, entry_rva(index) as u32) {
            None => failed_entry,
            Some(offset) => match displacement_at(image, offset as int) {
                None => Err(ResolveError::Displacement { index: index as usize }),
                Some(displacement) => match name_rva_of(entry_rva(index), displacement) {
                    None => Err(ResolveError::NameRva { index: index as usize }),
                    Some(target) => match rva_file_offset(image, target) {
                        None => Err(ResolveError::NameRva { index: index as usize }),
                        Some(name_offset) => match c_string_at(image, name_offset as int) {
                            None => Err(ResolveError::Name { index: index as usize }),
                            Some(name) => Ok(name),
                        },
                    },
                },
            },
        }
    }
}

/// The table built from the first `count` entries: each symbolic name bound
/// to the native name of the entry at its position. The first entry that
/// cannot be read fails the whole table.
pub open spec fn symbol_map_of(image: Seq<u8>, symbols: Seq<Seq<char>>, count: nat) -> Result<
    Map<Seq<char>, Seq<u8>>,
    ResolveError,
>
    decreases count,
{
    if count == 0 {
        Ok(Map::empty())
    } else {
        match symbol_map_of(image, symbols, (count - 1) as nat) {
            Err(e) => Err(e),
            Ok(earlier) => match entry_name(image, (count - 1) as nat) {
                Err(e) => Err(e),
                Ok(native) => Ok(earlier.insert(symbols[count - 1], native)),
            },
        }
    }
}

/// A completed table.
pub struct SymbolTable {
    names: FnvHashMap<String, Vec<u8>>,
}

impl SymbolTable {
    /// Native name bytes by symbolic name.
    pub closed spec fn view(&self) -> Map<Seq<char>, Seq<u8>> {
        symbol_map_entries(self.names)
    }

    /// The native name recorded for `name`.
    pub fn native_name(&self, name: &str) -> (native: Option<&Vec<u8>>)
        ensures
            match native {
                Some(bytes) => self@.contains_key(name@) && self@[name@] == bytes@,
                None => !self@.contains_key(name@),
            },
    {
        symbol_map_get(&self.names, name)
    }
}

/// What a walk produced, with the table taken by its view.
pub open spec fn walk_view(res: Result<SymbolTable, ResolveError>) -> Result<
    Map<Seq<char>, Seq<u8>>,
    ResolveError,
> {
    match res {
        Ok(table) => Ok(table@),
        Err(e) => Err(e),
    }
}

/// Reads the signed displacement stored at `offset`.
pub fn read_displacement(image: &[u8], offset: usize) -> (res: Option<i32>)
    ensures
        match res {
            Some(d) => displacement_at(image@, offset as int) == Some(d as int),
            None => displacement_at(image@, offset as int) is None,
        },
{
    if offset > image.len() || image.len() - offset < DISPLACEMENT_WIDTH as usize {
        return None;
    }
    let b0: u64 = image[offset] as u64;
    let b1: u64 = image[offset + 1] as u64;
    let b2: u64 = image[offset + 2] as u64;
    let b3: u64 = image[offset + 3] as u64;
    let raw: u64 = b0 + b1 * 0x100 + b2 * 0x1_0000 + b3 * 0x100_0000;
    if raw >= 0x8000_0000 {
        Some((raw as i64 - 0x1_0000_0000) as i32)
    } else {
        Some(raw as i32)
    }
}

/// Computes the address an entry refers to.
pub fn name_rva(entry: u32, displacement: i32) -> (res: Option<u32>)
    ensures
        res == name_rva_of(entry as int, displacement as int),
{
    let target: i64 = entry as i64 + DISPLACEMENT_WIDTH as i64 + displacement as i64;
    if 0 <= target && target <= 0xffff_ffff {
        Some(target as u32)
    } else {
        None
    }
}

/// Two ends of the same string coincide.
pub proof fn lemma_terminator_is_unique(image: Seq<u8>, offset: int, a: int, b: int)
    requires
        terminated_at(image, offset, a),
        terminated_at(image, offset, b),
    ensures
        a == b,
{
    if a < b {
        assert(image[a] != 0);
    }
    if b < a {
        assert(image[b] != 0);
    }
}

/// Copies the zero-terminated string that starts at `offset`.
pub fn read_c_string(image: &[u8], offset: usize) -> (res: Option<Vec<u8>>)
    ensures
        match res {
            Some(name) => c_string_at(image@, offset as int) == Some(name@),
            None => c_string_at(image@, offset as int) is None,
        },
{
    let mut name: Vec<u8> = Vec::new();
    let mut end: usize = offset;
    while end < image.len() && image[end] != 0
        invariant
            offset <= end,
            end <= image@.len() || end == offset,
            name@ == image@.subrange(offset as int, end as int) || (offset > image@.len() && name@.len() == 0),
            forall|i: int| offset <= i < end ==> image@[i] != 0,
        decreases image@.len() - end,
    {
        name.push(image[end]);
        end = end + 1;
        assert(name@ =~= image@.subrange(offset as int, end as int));
    }
    if end < image.len() {
        proof {
            assert(terminated_at(image@, offset as int, end as int));
            let chosen = choose|e: int| terminated_at(image@, offset as int, e);
            lemma_terminator_is_unique(image@, offset as int, end as int, chosen);
        }
        Some(name)
    } else {
        proof {
            assert forall|e: int| !terminated_at(image@, offset as int, e) by {
                if terminated_at(image@, offset as int, e) {
                    assert(image@[e] != 0);
                }
            }
        }
        None
    }
}

/// What reading one entry produced, with the name taken by its view.
pub open spec fn entry_view(res: Result<Vec<u8>, ResolveError>) -> Result<Seq<u8>, ResolveError> {
    match res {
        Ok(name) => Ok(name@),
        Err(e) => Err(e),
    }
}

/// Reads the native name that the table entry at `index` leads to.
fn read_entry(pe: &PeFile, image: &[u8], index: usize, rva: u64) -> (res: Result<
    Vec<u8>,
    ResolveError,
>)
    requires
        pe_image(*pe) == image@,
        rva == entry_rva(index as nat),
    ensures
        entry_view(res) == entry_name(image@, index as nat),
{
    if rva > 0xffff_ffff {
        return Err(ResolveError::EntryRva { index });
    }
    let offset = match pe_rva_to_file_offset(pe, rva as u32) {
        Ok(offset) => offset,
        Err(_) => {
            return Err(ResolveError::EntryRva { index });
        },
    };
    let displacement = match read_displacement(image, offset) {
        Some(d) => d,
        None => {
            return Err(ResolveError::Displacement { index });
        },
    };
    let target = match name_rva(rva as u32, displacement) {
        Some(target) => target,
        None => {
            return Err(ResolveError::NameRva { index });
        },
    };
    let name_offset = match pe_rva_to_file_offset(pe, target) {
        Ok(offset) => offset,
        Err(_) => {
            return Err(ResolveError::NameRva { index });
        },
    };
    match read_c_string(image, name_offset) {
        Some(native) => Ok(native),
        None => Err(ResolveError::Name { index }),
    }
}

/// Walks the table of an image whose headers were accepted, binding the
/// symbolic names to the native names in list order.
pub fn walk_symbol_table(pe: &PeFile, image: &[u8], symbols: &[String]) -> (res: Result<
    SymbolTable,
    ResolveError,
>)
    requires
        pe_image(*pe) == image@,
    ensures
        walk_view(res) == symbol_map_of(image@, names_of(symbols@), symbols@.len()),
{
    let ghost names = names_of(symbols@);
    let mut table = symbol_map_new();
    let mut rva: u64 = START_RVA as u64;
    let mut index: usize = 0;
    while index < symbols.len()
        invariant
            index <= symbols@.len(),
            names == names_of(symbols@),
            pe_image(*pe) == image@,
            rva == entry_rva(index as nat),
            rva <= u32::MAX + FIRST_STRIDE,
            Ok::<Map<Seq<char>, Seq<u8>>, ResolveError>(symbol_map_entries(table)) == symbol_map_of(
                image@,
                names,
                index as nat,
            ),
        decreases symbols@.len() - index,
    {
        match read_entry(pe, image, index, rva) {
            Err(e) => {
                proof {
                    lemma_failure_is_final(
                        image@,
                        names,
                        (index + 1) as nat,
                        symbols@.len() as nat,
                    );
                }
                return Err(e);
            },
            Ok(native) => {
                symbol_map_insert(&mut table, symbols[index].clone(), native);
            },
        }
        rva = rva + if index == 0 {
            FIRST_STRIDE as u64
        } else {
            STRIDE as u64
        };
        index = index + 1;
    }
    Ok(SymbolTable { names: table })
}

/// Once an entry has failed, longer walks fail the same way.
pub proof fn lemma_failure_is_final(
    image: Seq<u8>,
    symbols: Seq<Seq<char>>,
    failed: nat,
    count: nat,
)
    requires
        failed <= count,
        symbol_map_of(image, symbols, failed) is Err,
    ensures
        symbol_map_of(image, symbols, count) == symbol_map_of(image, symbols, failed),
    decreases count,
{
    if failed < count {
        lemma_failure_is_final(image, symbols, failed, (count - 1) as nat);
    }
}

/// Parses the image's headers and walks the table for the fixed symbol list.
pub fn generate_symbol_map(image: &[u8]) -> (res: Result<SymbolTable, ResolveError>)
    ensures
        res matches Err(e) ==> e == ResolveError::Headers || symbol_map_of(
            image@,
            symbol_names(),
            symbol_names().len(),
        ) == Err::<Map<Seq<char>, Seq<u8>>, ResolveError>(e),
        res matches Ok(table) ==> symbol_map_of(image@, symbol_names(), symbol_names().len())
            == Ok::<Map<Seq<char>, Seq<u8>>, ResolveError>(table@),
{
    match pe_from_bytes(image) {
        Err(_) => Err(ResolveError::Headers),
        Ok(pe) => {
            let symbols = symbol_list();
            walk_symbol_table(&pe, image, symbols.as_slice())
        },
    }
}

/// Every symbolic name of a completed walk has a native name: a table is
/// whole or absent, never partial.
pub proof fn lemma_symbol_map_is_total(image: Seq<u8>, symbols: Seq<Seq<char>>, count: nat)
    requires
        count <= symbols.len(),
        symbol_map_of(image, symbols, count) is Ok,
    ensures
        forall|i: int|
            0 <= i < count ==> (#[trigger] symbol_map_of(image, symbols, count)->Ok_0.contains_key(
                symbols[i],
            )),
    decreases count,
{
    if count > 0 {
        lemma_symbol_map_is_total(image, symbols, (count - 1) as nat);
    }
}

/// What the resolver holds: nothing yet, or the table or failure of its one
/// and only attempt.
pub type ResolverView = Option<Result<Map<Seq<char>, Seq<u8>>, ResolveError>>;

/// The bytes of an image that was read, if it was.
pub open spec fn image_view(image: Option<&[u8]>) -> Option<Seq<u8>> {
    match image {
        Some(bytes) => Some(bytes@),
        None => None,
    }
}

/// `after` is what a resolver that held `before` holds once it has been asked
/// to resolve against `image`. A resolver that has made its attempt keeps it.
pub open spec fn resolve_outcome(
    before: ResolverView,
    image: Option<Seq<u8>>,
    after: ResolverView,
) -> bool {
    match before {
        Some(_) => after == before,
        None => match image {
            None => after == Some(
                Err::<Map<Seq<char>, Seq<u8>>, ResolveError>(ResolveError::Unavailable),
            ),
            Some(bytes) => {
                ||| after == Some(
                    Err::<Map<Seq<char>, Seq<u8>>, ResolveError>(ResolveError::Headers),
                )
                ||| after == Some(symbol_map_of(bytes, symbol_names(), symbol_names().len()))
            },
        },
    }
}

/// The native name a lookup yields from what the resolver holds.
pub open spec fn lookup_of(held: ResolverView, handle: usize, name: Seq<char>) -> Option<Seq<u8>> {
    match held {
        Some(Ok(table)) if handle != 0 && table.contains_key(name) => Some(table[name]),
        _ => None,
    }
}

/// Resolve-once holder of the symbol table.
pub struct SymbolResolver {
    attempt: Option<Result<SymbolTable, ResolveError>>,
}

impl SymbolResolver {
    pub closed spec fn view(&self) -> ResolverView {
        match self.attempt {
            Some(res) => Some(walk_view(res)),
            None => None,
        }
    }

    pub fn new() -> (resolver: SymbolResolver)
        ensures
            resolver@ is None,
    {
        SymbolResolver { attempt: None }
    }

    /// Whether the one attempt has been made, so that the module file need
    /// not be read again.
    pub fn is_resolved(&self) -> (resolved: bool)
        ensures
            resolved == self@ is Some,
    {
        self.attempt.is_some()
    }

    /// Why there is no table, once the one attempt has failed.
    pub fn failure(&self) -> (error: Option<ResolveError>)
        ensures
            error == match self@ {
                Some(Err(e)) => Some(e),
                _ => None::<ResolveError>,
            },
    {
        match &self.attempt {
            Some(Err(e)) => Some(*e),
            _ => None,
        }
    }

    /// Builds the table on the first call; `image` is the module file's
    /// content, or nothing when it could not be opened. Later calls change
    /// nothing, whatever they are given.
    pub fn resolve(&mut self, image: Option<&[u8]>)
        ensures
            resolve_outcome(old(self)@, image_view(image), final(self)@),
    {
        if self.attempt.is_none() {
            let res = match image {
                None => Err(ResolveError::Unavailable),
                Some(bytes) => generate_symbol_map(bytes),
            };
            self.attempt = Some(res);
        }
    }

    /// The native name to hand to the operating system's procedure lookup
    /// for `name` in the module at `handle`; nothing for a null handle, a
    /// missing table or an unknown name.
    pub fn dlsym(&self, handle: usize, name: &str) -> (native: Option<&Vec<u8>>)
        ensures
            match native {
                Some(bytes) => lookup_of(self@, handle, name@) == Some(bytes@),
                None => lookup_of(self@, handle, name@) is None,
            },
    {
        if handle == 0 {
            return None;
        }
        match &self.attempt {
            Some(Ok(table)) => table.native_name(name),
            _ => None,
        }
    }
}

/// Resolve-once: after the first request the resolver has made its attempt,
/// a second request leaves exactly what the first one left, and a success
/// binds every symbolic name.
pub proof fn lemma_resolve_once(
    before: ResolverView,
    first: Option<Seq<u8>>,
    between: ResolverView,
    second: Option<Seq<u8>>,
    after: ResolverView,
)
    requires
        resolve_outcome(before, first, between),
        resolve_outcome(between, second, after),
    ensures
        between is Some,
        after == between,
        before is None ==> (between matches Some(Ok(table)) ==> forall|i: int|
            0 <= i < symbol_names().len() ==> table.contains_key(#[trigger] symbol_names()[i])),
        before is None && first is None ==> between == Some(
            Err::<Map<Seq<char>, Seq<u8>>, ResolveError>(ResolveError::Unavailable),
        ),
{
    if before is None && first is Some {
        if between matches Some(Ok(_)) {
            lemma_symbol_map_is_total(first->0, symbol_names(), symbol_names().len());
        }
    }
}

} // verus!

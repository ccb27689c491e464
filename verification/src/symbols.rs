//! Runtime introspection: the runtime's entry points, its domain, and the
//! lookups of assembly images, classes and methods.

use crate::types::Il2CppClass;
use crate::types::Il2CppDomain;
use crate::types::Il2CppImage;
use vstd::prelude::*;
use vstd::string::StringSliceAdditionalSpecFns;

verus! {

/// Symbolic names of the entry points that `init` needs, in the order of the
/// fields of `RuntimeApi`.
pub const API_SYMBOLS: [&'static str; 7] = [
    "il2cpp_domain_get",
    "il2cpp_domain_get_assemblies",
    "il2cpp_assembly_get_image",
    "il2cpp_image_get_name",
    "il2cpp_class_from_name",
    "il2cpp_class_get_method_from_name",
    "il2cpp_resolve_icall",
];

/// Addresses of the runtime's entry points; zero where the lookup failed.
#[derive(Debug, Clone, Copy, PartialEq, Eq, Structural)]
pub struct RuntimeApi {
    pub domain_get: usize,
    pub domain_get_assemblies: usize,
    pub assembly_get_image: usize,
    pub image_get_name: usize,
    pub class_from_name: usize,
    pub class_get_method_from_name: usize,
    pub resolve_icall: usize,
}

/// Why a lookup gave nothing.
#[derive(Debug, Clone, Copy, PartialEq, Eq, Structural)]
pub enum LookupError {
    /// An entry point the lookup needs was not resolved.
    Unresolved,
    /// The runtime is not up yet: no domain, or no assemblies in it. Worth
    /// another try after a delay.
    NotReady,
    /// The runtime is up and what was asked for is not there.
    NotFound,
    /// A name holds a zero byte and cannot be passed to the runtime.
    BadName,
}

/// One loaded assembly as the runtime reports it.
pub struct AssemblyImage {
    /// Address of the assembly's image; zero when the runtime gave none.
    pub image: usize,
    /// The image's file name; nothing when the runtime gave a null name.
    pub name: Option<String>,
}

/// A call of the runtime's class-by-name entry point, ready to be made.
pub struct ClassQuery {
    pub entry: usize,
    pub image: usize,
    /// Zero-terminated namespace.
    pub namespace: Vec<u8>,
    /// Zero-terminated class name.
    pub name: Vec<u8>,
}

/// A call of the runtime's method-by-name entry point, ready to be made.
pub struct MethodQuery {
    pub entry: usize,
    pub class: usize,
    /// Zero-terminated method name.
    pub name: Vec<u8>,
    pub args_count: i32,
}

/// A call of the runtime's internal-call resolver, ready to be made.
pub struct IcallQuery {
    pub entry: usize,
    /// Zero-terminated signature.
    pub signature: Vec<u8>,
}

/// The bytes to pass for `text`: its UTF-8 encoding and a terminator, unless
/// a zero byte inside would cut it short.
pub open spec fn c_string_of(text: Seq<u8>) -> Option<Seq<u8>> {
    if text.contains(0u8) {
        None
    } else {
        Some(text.push(0u8))
    }
}

/// The assembly at `index` is the one asked for.
pub open spec fn names_image(assemblies: Seq<AssemblyImage>, index: int, name: Seq<char>) -> bool {
    &&& 0 <= index < assemblies.len()
    &&& assemblies[index].image != 0
    &&& assemblies[index].name matches Some(n)
    &&& n@ == name
}

/// `index` is the first assembly of that name.
pub open spec fn first_named(assemblies: Seq<AssemblyImage>, index: int, name: Seq<char>) -> bool {
    &&& names_image(assemblies, index, name)
    &&& forall|earlier: int| 0 <= earlier < index ==> !names_image(assemblies, earlier, name)
}

/// Encodes `text` for the runtime.
pub fn c_string(text: &str) -> (res: Option<Vec<u8>>)
    ensures
        match res {
            Some(bytes) => c_string_of(text.spec_bytes()) == Some(bytes@),
            None => c_string_of(text.spec_bytes()) is None,
        },
{
    let source = text.as_bytes();
    let mut bytes: Vec<u8> = Vec::new();
    let mut i: usize = 0;
    while i < source.len()
        invariant
            i <= source@.len(),
            source@ == text.spec_bytes(),
            bytes@ == source@.subrange(0, i as int),
            forall|k: int| 0 <= k < i ==> source@[k] != 0,
        decreases source@.len() - i,
    {
        if source[i] == 0 {
            assert(source@[i as int] == 0u8);
            return None;
        }
        bytes.push(source[i]);
        i = i + 1;
        assert(bytes@ =~= source@.subrange(0, i as int));
    }
    assert(source@.subrange(0, i as int) =~= source@);
    bytes.push(0);
    Some(bytes)
}

/// The introspection layer once its entry points are known.
pub struct Introspection {
    api: RuntimeApi,
    domain: Option<Il2CppDomain>,
}

/// Takes the resolved entry points. Without the domain accessor nothing can
/// be done and there is no layer; the other entry points are checked by the
/// lookups that need them. The domain is still to be fetched.
pub fn init(api: RuntimeApi) -> (layer: Option<Introspection>)
    ensures
        match layer {
            Some(l) => api.domain_get != 0 && l.api() == api && l.domain() == 0,
            None => api.domain_get == 0,
        },
{
    if api.domain_get == 0 {
        None
    } else {
        Some(Introspection { api, domain: None })
    }
}

impl Introspection {
    /// The entry points in use.
    pub closed spec fn api(&self) -> RuntimeApi {
        self.api
    }

    /// Address of the cached domain; zero while there is none.
    pub closed spec fn domain(&self) -> usize {
        match self.domain {
            Some(d) => d@,
            None => 0,
        }
    }

    /// Address of the domain accessor, to be called right after `init`.
    pub fn domain_accessor(&self) -> (entry: usize)
        ensures
            entry == self.api().domain_get,
    {
        self.api.domain_get
    }

    /// Caches what the domain accessor returned. A null domain means that
    /// the runtime is not fully initialized yet.
    pub fn set_domain(&mut self, domain: usize) -> (ready: bool)
        ensures
            final(self).api() == old(self).api(),
            final(self).domain() == domain,
            ready == (domain != 0),
    {
        self.domain = Il2CppDomain::from_addr(domain);
        self.domain.is_some()
    }

    /// What enumerating the loaded assemblies takes: the cached domain and
    /// the three entry points involved.
    pub fn enumeration(&self) -> (res: Result<(usize, usize, usize, usize), LookupError>)
        ensures
            match res {
                Ok(call) => {
                    &&& call.0 == self.domain()
                    &&& call.1 == self.api().domain_get_assemblies
                    &&& call.2 == self.api().assembly_get_image
                    &&& call.3 == self.api().image_get_name
                    &&& call.0 != 0 && call.1 != 0 && call.2 != 0 && call.3 != 0
                },
                Err(e) => if self.api().domain_get_assemblies == 0 || self.api().assembly_get_image
                    == 0 || self.api().image_get_name == 0 {
                    e == LookupError::Unresolved
                } else {
                    self.domain() == 0 && e == LookupError::NotReady
                },
            },
    {
        if self.api.domain_get_assemblies == 0 || self.api.assembly_get_image == 0
            || self.api.image_get_name == 0 {
            return Err(LookupError::Unresolved);
        }
        match &self.domain {
            None => Err(LookupError::NotReady),
            Some(domain) => Ok(
                (
                    domain.addr(),
                    self.api.domain_get_assemblies,
                    self.api.assembly_get_image,
                    self.api.image_get_name,
                ),
            ),
        }
    }

    /// Prepares the class lookup in `image`.
    pub fn get_class(&self, image: &Il2CppImage, namespace: &str, class_name: &str) -> (res: Result<
        ClassQuery,
        LookupError,
    >)
        ensures
            match res {
                Ok(query) => {
                    &&& query.entry == self.api().class_from_name
                    &&& query.entry != 0
                    &&& query.image == image@
                    &&& c_string_of(namespace.spec_bytes()) == Some(query.namespace@)
                    &&& c_string_of(class_name.spec_bytes()) == Some(query.name@)
                },
                Err(e) => if self.api().class_from_name == 0 {
                    e == LookupError::Unresolved
                } else {
                    e == LookupError::BadName && (c_string_of(namespace.spec_bytes()) is None
                        || c_string_of(class_name.spec_bytes()) is None)
                },
            },
    {
        if self.api.class_from_name == 0 {
            return Err(LookupError::Unresolved);
        }
        let namespace = match c_string(namespace) {
            Some(bytes) => bytes,
            None => {
                return Err(LookupError::BadName);
            },
        };
        let name = match c_string(class_name) {
            Some(bytes) => bytes,
            None => {
                return Err(LookupError::BadName);
            },
        };
        Ok(ClassQuery { entry: self.api.class_from_name, image: image.addr(), namespace, name })
    }

    /// Prepares the lookup of a method of `class` by name and arity.
    pub fn get_method_addr(&self, class: &Il2CppClass, name: &str, args_count: i32) -> (res: Result<
        MethodQuery,
        LookupError,
    >)
        ensures
            match res {
                Ok(query) => {
                    &&& query.entry == self.api().class_get_method_from_name
                    &&& query.entry != 0
                    &&& query.class == class@
                    &&& c_string_of(name.spec_bytes()) == Some(query.name@)
                    &&& query.args_count == args_count
                },
                Err(e) => if self.api().class_get_method_from_name == 0 {
                    e == LookupError::Unresolved
                } else {
                    e == LookupError::BadName && c_string_of(name.spec_bytes()) is None
                },
            },
    {
        if self.api.class_get_method_from_name == 0 {
            return Err(LookupError::Unresolved);
        }
        match c_string(name) {
            Some(bytes) => Ok(
                MethodQuery {
                    entry: self.api.class_get_method_from_name,
                    class: class.addr(),
                    name: bytes,
                    args_count,
                },
            ),
            None => Err(LookupError::BadName),
        }
    }

    /// Prepares the resolution of an internal call by its signature.
    pub fn resolve_icall(&self, signature: &str) -> (res: Result<IcallQuery, LookupError>)
        ensures
            match res {
                Ok(query) => {
                    &&& query.entry == self.api().resolve_icall
                    &&& query.entry != 0
                    &&& c_string_of(signature.spec_bytes()) == Some(query.signature@)
                },
                Err(e) => if self.api().resolve_icall == 0 {
                    e == LookupError::Unresolved
                } else {
                    e == LookupError::BadName && c_string_of(signature.spec_bytes()) is None
                },
            },
    {
        if self.api.resolve_icall == 0 {
            return Err(LookupError::Unresolved);
        }
        match c_string(signature) {
            Some(bytes) => Ok(IcallQuery { entry: self.api.resolve_icall, signature: bytes }),
            None => Err(LookupError::BadName),
        }
    }
}

/// Picks the image of the assembly called `assembly_name` from the loaded
/// assemblies: the first whose name is exactly that. An empty enumeration
/// means that the runtime is not ready, which is not the same as the
/// assembly being absent.
pub fn get_assembly_image(assemblies: &[AssemblyImage], assembly_name: &str) -> (res: Result<
    Il2CppImage,
    LookupError,
>)
    ensures
        match res {
            Ok(image) => exists|index: int|
                first_named(assemblies@, index, assembly_name@) && image@
                    == assemblies@[index].image,
            Err(e) => {
                &&& forall|index: int| !names_image(assemblies@, index, assembly_name@)
                &&& e == if assemblies@.len() == 0 {
                    LookupError::NotReady
                } else {
                    LookupError::NotFound
                }
            },
        },
{
    if assemblies.len() == 0 {
        return Err(LookupError::NotReady);
    }
    let wanted = assembly_name.to_owned();
    let mut index: usize = 0;
    while index < assemblies.len()
        invariant
            index <= assemblies@.len(),
            wanted@ == assembly_name@,
            forall|earlier: int| 0 <= earlier < index ==> !names_image(
                assemblies@,
                earlier,
                assembly_name@,
            ),
        decreases assemblies@.len() - index,
    {
        let named = match &assemblies[index].name {
            Some(name) => *name == wanted,
            None => false,
        };
        if named {
            match Il2CppImage::from_addr(assemblies[index].image) {
                Some(image) => {
                    assert(first_named(assemblies@, index as int, assembly_name@));
                    return Ok(image);
                },
                None => {},
            }
        }
        index = index + 1;
    }
    Err(LookupError::NotFound)
}

/// The address of a class the runtime returned; null means not found.
pub fn class_found(raw: usize) -> (res: Result<Il2CppClass, LookupError>)
    ensures
        match res {
            Ok(class) => class@ == raw && raw != 0,
            Err(e) => raw == 0 && e == LookupError::NotFound,
        },
{
    match Il2CppClass::from_addr(raw) {
        Some(class) => Ok(class),
        None => Err(LookupError::NotFound),
    }
}

} // verus!

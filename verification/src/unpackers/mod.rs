//! The SteamStub unpacker plugins and their registry.
pub mod headers;
pub mod stub;
pub mod v1_v2;
pub mod v3;
pub mod variants;

use crate::pe::PeFile;
use crate::unpackers::variants::BuiltinPlugin;
use vstd::prelude::*;

verus! {

/// An unpacked image and what the stub header said about it.
pub struct UnpackedImage {
    /// The rebuilt image bytes.
    pub data: Vec<u8>,
    /// The original entry point recorded in the stub header.
    pub original_entry_point: u64,
    /// The Steam application id recorded in the stub header.
    pub steam_app_id: u32,
    /// The decoded stub payload, when it lies in the image.
    pub payload: Option<Vec<u8>>,
    /// The decoded SteamDRMP module, when it lies in the image.
    pub drmp_dll: Option<Vec<u8>>,
}

/// An unpacker for one SteamStub variant.
pub trait UnpackerPlugin: Send + Sync {
    /// The display name.
    spec fn spec_name(&self) -> Seq<char>;

    /// The version string.
    spec fn spec_version(&self) -> Seq<char>;

    /// Whether the plugin handles PE32+ images.
    spec fn spec_is_64bit(&self) -> bool;

    /// `pe` is an image this plugin recognises.
    spec fn accepts(&self, pe: PeFile) -> bool;

    /// Deciding whether the plugin recognises `pe` is defined.
    spec fn can_process_defined(&self, pe: PeFile) -> bool;

    /// Unpacking `pe` is defined.
    spec fn unpack_defined(&self, pe: PeFile) -> bool;

    /// `r` is what unpacking `pe` gives.
    spec fn unpacked(&self, pe: PeFile, r: Result<UnpackedImage, String>) -> bool;

    /// The display name.
    fn name(&self) -> (r: &'static str)
        ensures
            r@ == self.spec_name(),
    ;

    /// The version string.
    fn version(&self) -> (r: &'static str)
        ensures
            r@ == self.spec_version(),
    ;

    /// Whether the plugin handles PE32+ images.
    fn is_64bit(&self) -> (r: bool)
        ensures
            r == self.spec_is_64bit(),
    ;

    /// Whether the plugin recognises `pe`.
    fn can_process(&self, pe: &PeFile) -> (r: bool)
        requires
            self.can_process_defined(*pe),
        ensures
            r == self.accepts(*pe),
    ;

    /// Unpacks `pe`.
    fn unpack(&self, pe: &PeFile) -> (r: Result<UnpackedImage, String>)
        requires
            self.unpack_defined(*pe),
        ensures
            self.unpacked(*pe, r),
    ;
}


/// The index of the first plugin of `ps`, from the `i`-th on, that
/// recognises `pe`.
pub open spec fn first_accepting_from<P: UnpackerPlugin>(ps: Seq<P>, pe: PeFile, i: int) -> Option<
    int,
>
    decreases ps.len() - i,
{
    if i < 0 || i >= ps.len() {
        None
    } else if ps[i].accepts(pe) {
        Some(i)
    } else {
        first_accepting_from(ps, pe, i + 1)
    }
}

/// The index of the first plugin of `ps` that recognises `pe`.
pub open spec fn first_accepting<P: UnpackerPlugin>(ps: Seq<P>, pe: PeFile) -> Option<int> {
    first_accepting_from(ps, pe, 0)
}

/// Asking the plugins of `ps` in turn, from the `i`-th on, whether they
/// recognise `pe` is defined up to the first that does.
pub open spec fn scan_defined_from<P: UnpackerPlugin>(ps: Seq<P>, pe: PeFile, i: int) -> bool
    decreases ps.len() - i,
{
    if i < 0 || i >= ps.len() {
        true
    } else {
        ps[i].can_process_defined(pe) && (ps[i].accepts(pe) || scan_defined_from(ps, pe, i + 1))
    }
}

proof fn lemma_first_accepting_push<P: UnpackerPlugin>(ps: Seq<P>, p: P, pe: PeFile, i: int)
    requires
        0 <= i <= ps.len(),
    ensures
        first_accepting_from(ps.push(p), pe, i) == match first_accepting_from(ps, pe, i) {
            Some(k) => Some(k),
            None => if p.accepts(pe) {
                Some(ps.len() as int)
            } else {
                None::<int>
            },
        },
    decreases ps.len() - i,
{
    if i < ps.len() {
        assert(ps.push(p)[i] == ps[i]);
        if !ps[i].accepts(pe) {
            lemma_first_accepting_push(ps, p, pe, i + 1);
        }
    } else {
        assert(ps.push(p)[i] == p);
        assert(first_accepting_from(ps.push(p), pe, i + 1) is None);
    }
}

/// Registering a plugin never changes which plugin an image that an
/// earlier plugin recognises goes to; an image that no earlier plugin
/// recognises goes to the new plugin exactly when it recognises it.
pub proof fn law_register_keeps_earlier<P: UnpackerPlugin>(ps: Seq<P>, p: P, pe: PeFile)
    ensures
        first_accepting(ps.push(p), pe) == match first_accepting(ps, pe) {
            Some(k) => Some(k),
            None => if p.accepts(pe) {
                Some(ps.len() as int)
            } else {
                None::<int>
            },
        },
{
    lemma_first_accepting_push(ps, p, pe, 0);
}

/// The unpacker plugins, in the order in which they are tried.
pub struct UnpackerRegistry<P> {
    plugins: Vec<P>,
}

impl<P> View for UnpackerRegistry<P> {
    type V = Seq<P>;

    closed spec fn view(&self) -> Seq<P> {
        self.plugins@
    }
}

impl UnpackerRegistry<BuiltinPlugin> {
    /// A registry holding the built-in plugins: variants 1.0, 2.0 and 2.1
    /// (x86), 3.0 (x86, x64) and 3.1 (x86, x64), in that order.
    pub fn new() -> (r: Self)
        ensures
            r@ == seq![
                BuiltinPlugin::Variant10x86,
                BuiltinPlugin::Variant20x86,
                BuiltinPlugin::Variant21x86,
                BuiltinPlugin::Variant30x86,
                BuiltinPlugin::Variant30x64,
                BuiltinPlugin::Variant31x86,
                BuiltinPlugin::Variant31x64,
            ],
    {
        let mut registry = UnpackerRegistry { plugins: Vec::new() };
        registry.register(BuiltinPlugin::Variant10x86);
        registry.register(BuiltinPlugin::Variant20x86);
        registry.register(BuiltinPlugin::Variant21x86);
        registry.register(BuiltinPlugin::Variant30x86);
        registry.register(BuiltinPlugin::Variant30x64);
        registry.register(BuiltinPlugin::Variant31x86);
        registry.register(BuiltinPlugin::Variant31x64);
        registry
    }

    /// Whether `find_unpacker` is defined on `pe`: asking the plugins in
    /// turn reads no `i32::MIN` header-size word before one of them
    /// recognises `pe`.
    pub fn find_is_defined(&self, pe: &PeFile) -> (r: bool)
        ensures
            r == scan_defined_from(self@, *pe, 0),
    {
        let mut i: usize = 0;
        while i < self.plugins.len()
            invariant
                i <= self@.len(),
                scan_defined_from(self@, *pe, 0) == scan_defined_from(self@, *pe, i as int),
            decreases self@.len() - i,
        {
            let p = &self.plugins[i];
            if !p.can_process_is_defined(pe) {
                return false;
            }
            if p.can_process(pe) {
                return true;
            }
            i = i + 1;
        }
        true
    }
}

impl<P: UnpackerPlugin> UnpackerRegistry<P> {
    /// Adds `plugin` after the plugins already registered.
    pub fn register(&mut self, plugin: P)
        ensures
            final(self)@ == old(self)@.push(plugin),
    {
        self.plugins.push(plugin);
    }

    /// The first plugin, in registration order, that recognises `pe`.
    pub fn find_unpacker(&self, pe: &PeFile) -> (r: Option<&P>)
        requires
            scan_defined_from(self@, *pe, 0),
        ensures
            match first_accepting(self@, *pe) {
                Some(i) => r == Some(&self@[i]),
                None => r is None,
            },
    {
        let mut i: usize = 0;
        while i < self.plugins.len()
            invariant
                i <= self@.len(),
                scan_defined_from(self@, *pe, i as int),
                first_accepting(self@, *pe) == first_accepting_from(self@, *pe, i as int),
            decreases self@.len() - i,
        {
            if self.plugins[i].can_process(pe) {
                return Some(&self.plugins[i]);
            }
            i = i + 1;
        }
        None
    }

    /// The name, version and bitness of each plugin, in registration order.
    pub fn list_plugins(&self) -> (r: Vec<(&'static str, &'static str, bool)>)
        ensures
            r@.len() == self@.len(),
            forall|i: int|
                0 <= i < r@.len() ==> (#[trigger] r@[i]).0@ == self@[i].spec_name() && r@[i].1@
                    == self@[i].spec_version() && r@[i].2 == self@[i].spec_is_64bit(),
    {
        let mut out: Vec<(&'static str, &'static str, bool)> = Vec::new();
        let mut i: usize = 0;
        while i < self.plugins.len()
            invariant
                i <= self@.len(),
                out@.len() == i,
                forall|j: int|
                    0 <= j < i ==> (#[trigger] out@[j]).0@ == self@[j].spec_name() && out@[j].1@
                        == self@[j].spec_version() && out@[j].2 == self@[j].spec_is_64bit(),
            decreases self@.len() - i,
        {
            let p = &self.plugins[i];
            out.push((p.name(), p.version(), p.is_64bit()));
            i = i + 1;
        }
        out
    }
}

} // verus!

//! A bounded memory of quantized colours. It only saves work: with it or
//! without it every colour gets the same palette index.

use crate::color::{Color, Rgb};
use crate::profile::TermProfile;
use crate::quantize::{ansi256_to_ansi, rgb_to_ansi256};
use crate::style::Style;
use vstd::prelude::*;

verus! {

/// `LruCache` of the crate `lru`, as a type whose inside the verifier does
/// not read.
#[verifier::external_type_specification]
#[verifier::external_body]
#[verifier::reject_recursive_types(K)]
#[verifier::reject_recursive_types(V)]
#[verifier::reject_recursive_types(S)]
pub struct ExLruCache<K, V, S>(lru::LruCache<K, V, S>);

/// `DefaultHasher` of the crate `lru`, the hasher of its caches, as a type
/// whose inside the verifier does not read.
#[verifier::external_type_specification]
#[verifier::external_body]
pub struct ExLruHasher(lru::DefaultHasher);

/// The entries that a cache holds, each key with its value.
pub uninterp spec fn lru_entries(cache: lru::LruCache<u32, u8>) -> Map<u32, u8>;

/// The number of entries that a cache was made or resized to keep at most.
pub uninterp spec fn lru_limit(cache: lru::LruCache<u32, u8>) -> nat;

/// Whether a cache holds finitely many entries, and no more than its limit.
pub open spec fn lru_bounded(cache: lru::LruCache<u32, u8>) -> bool {
    lru_entries(cache).dom().finite() && lru_entries(cache).len() <= lru_limit(cache)
}

/// Calls `LruCache::new` of the crate `lru`. Believed, not proved: the new
/// cache is empty and keeps at most `limit` entries.
#[verifier::external_body]
fn lru_new(limit: usize) -> (cache: lru::LruCache<u32, u8>)
    requires
        limit > 0,
    ensures
        lru_entries(cache) =~= Map::empty(),
        lru_limit(cache) == limit,
        lru_bounded(cache),
{
    lru::LruCache::new(std::num::NonZeroUsize::new(limit).expect("a limit above zero"))
}

/// Calls `LruCache::get` of the crate `lru`. Believed, not proved: the result
/// is the value that the cache holds for `key`, if it holds one, and the cache
/// holds after the call what it held before.
#[verifier::external_body]
fn lru_get(cache: &mut lru::LruCache<u32, u8>, key: u32) -> (found: Option<u8>)
    ensures
        found == (if lru_entries(*old(cache)).contains_key(key) {
            Some(lru_entries(*old(cache))[key])
        } else {
            None
        }),
        lru_entries(*final(cache)) == lru_entries(*old(cache)),
        lru_limit(*final(cache)) == lru_limit(*old(cache)),
        lru_bounded(*final(cache)),
{
    cache.get(&key).copied()
}

/// Calls `LruCache::put` of the crate `lru`. Believed, not proved: after the
/// call the cache holds `value` for `key`. Where it held `key` before, or held
/// fewer entries than its limit, every other entry stays; else one other entry
/// leaves, and the contract does not say which.
#[verifier::external_body]
fn lru_put(cache: &mut lru::LruCache<u32, u8>, key: u32, value: u8)
    ensures
        lru_entries(*old(cache)).contains_key(key) || lru_entries(*old(cache)).len() < lru_limit(
            *old(cache),
        ) ==> lru_entries(*final(cache)) == lru_entries(*old(cache)).insert(key, value),
        !lru_entries(*old(cache)).contains_key(key) && lru_entries(*old(cache)).len()
            >= lru_limit(*old(cache)) ==> exists|gone: u32|
            gone != key && #[trigger] lru_entries(*old(cache)).contains_key(gone) && lru_entries(
                *final(cache),
            ) == lru_entries(*old(cache)).remove(gone).insert(key, value),
        lru_limit(*final(cache)) == lru_limit(*old(cache)),
        lru_bounded(*final(cache)),
{
    cache.put(key, value);
}

/// Calls `LruCache::resize` of the crate `lru`. Believed, not proved: after
/// the call the limit is `limit`; the cache holds no entry that it did not
/// hold before, and all of them where they were no more than `limit`.
#[verifier::external_body]
fn lru_resize(cache: &mut lru::LruCache<u32, u8>, limit: usize)
    requires
        limit > 0,
    ensures
        lru_limit(*final(cache)) == limit,
        lru_entries(*final(cache)).submap_of(lru_entries(*old(cache))),
        lru_entries(*old(cache)).len() <= limit ==> lru_entries(*final(cache)) == lru_entries(
            *old(cache),
        ),
        lru_bounded(*final(cache)),
{
    cache.resize(std::num::NonZeroUsize::new(limit).expect("a limit above zero"));
}

/// Calls `LruCache::len` of the crate `lru`. Believed, not proved: the result
/// is the number of entries that the cache holds.
#[verifier::external_body]
fn lru_len(cache: &lru::LruCache<u32, u8>) -> (len: usize)
    ensures
        len == lru_entries(*cache).len(),
{
    cache.len()
}

/// Calls `LruCache::cap` of the crate `lru`. Believed, not proved: the result
/// is the limit of the cache.
#[verifier::external_body]
fn lru_cap(cache: &lru::LruCache<u32, u8>) -> (limit: usize)
    ensures
        limit == lru_limit(*cache),
{
    cache.cap().get()
}

/// The key under which a colour is remembered.
pub open spec fn key_of(color: Rgb) -> u32 {
    (color.red * 65536 + color.green * 256 + color.blue) as u32
}

/// The number of entries that a new memory keeps at most.
pub const DEFAULT_CACHE_SIZE: usize = 256;

/// A memory of the palette indices of colours that were quantized before. It
/// is switched off when it is made.
pub struct QuantizationCache {
    enabled: bool,
    entries: lru::LruCache<u32, u8>,
}

impl QuantizationCache {
    /// Whether the memory is in order: it holds no more colours than its
    /// limit, which is above zero, and for each colour that it holds the
    /// palette index that stands for it.
    pub closed spec fn wf(&self) -> bool {
        &&& lru_bounded(self.entries)
        &&& lru_limit(self.entries) > 0
        &&& forall|color: Rgb| #[trigger]
            lru_entries(self.entries).contains_key(key_of(color)) ==> lru_entries(
                self.entries,
            )[key_of(color)] == crate::quantize::quantized(color)
    }

    /// Whether the memory is switched on.
    pub closed spec fn enabled(&self) -> bool {
        self.enabled
    }

    /// The number of colours that the memory keeps at most.
    pub closed spec fn limit(&self) -> nat {
        lru_limit(self.entries)
    }

    /// The colours that the memory holds, each under its key, with its palette index.
    pub closed spec fn entries(&self) -> Map<u32, u8> {
        lru_entries(self.entries)
    }

    /// An empty memory, switched off, that keeps at most `limit` colours.
    pub fn new(limit: usize) -> (r: QuantizationCache)
        requires
            limit > 0,
        ensures
            r.wf(),
            !r.enabled(),
            r.limit() == limit,
            r.entries() == Map::<u32, u8>::empty(),
    {
        QuantizationCache { enabled: false, entries: lru_new(limit) }
    }

    /// Whether the memory is switched on.
    pub fn is_enabled(&self) -> (r: bool)
        ensures
            r == self.enabled(),
    {
        self.enabled
    }

    /// The number of colours that the memory holds.
    pub fn len(&self) -> (r: usize)
        ensures
            r == self.entries().len(),
    {
        lru_len(&self.entries)
    }

    /// The number of colours that the memory keeps at most.
    pub fn capacity(&self) -> (r: usize)
        ensures
            r == self.limit(),
    {
        lru_cap(&self.entries)
    }

    /// The palette index that stands for `color`: the same with the memory
    /// switched on as with it switched off, whatever it holds. Switched on, it
    /// holds the colour afterwards.
    pub fn rgb_to_ansi256(&mut self, color: Rgb) -> (r: u8)
        requires
            old(self).wf(),
        ensures
            final(self).wf(),
            r == crate::quantize::quantized(color),
            final(self).enabled() == old(self).enabled(),
            final(self).limit() == old(self).limit(),
            !old(self).enabled() ==> final(self).entries() == old(self).entries(),
            old(self).entries().contains_key(key_of(color)) ==> final(self).entries()
                == old(self).entries(),
            old(self).enabled() ==> final(self).entries().contains_key(key_of(color)),
            final(self).entries().remove(key_of(color)).submap_of(old(self).entries()),
    {
        if !self.enabled {
            return rgb_to_ansi256(color);
        }
        let key: u32 = color.red as u32 * 65536 + color.green as u32 * 256 + color.blue as u32;
        assert(key == key_of(color));
        if let Some(cached) = lru_get(&mut self.entries, key) {
            return cached;
        }
        let converted = rgb_to_ansi256(color);
        let ghost before = lru_entries(self.entries);
        lru_put(&mut self.entries, key, converted);
        proof {
            let after = lru_entries(self.entries);
            assert forall|other: Rgb| #[trigger] after.contains_key(key_of(other)) implies after[key_of(
                other,
            )] == crate::quantize::quantized(other) by {
                if key_of(other) == key {
                    assert(other == color);
                } else {
                    assert(before.contains_key(key_of(other)));
                }
            }
        }
        converted
    }
}

/// A memory in order is bounded: it never holds more colours than its limit.
pub proof fn lemma_cache_is_bounded(cache: QuantizationCache)
    requires
        cache.wf(),
    ensures
        cache.limit() > 0,
        cache.entries().dom().finite(),
        cache.entries().len() <= cache.limit(),
{
}

/// A memory in order remembers rightly: what it holds for a colour is the
/// palette index that stands for the colour.
pub proof fn lemma_cache_is_right(cache: QuantizationCache, color: Rgb)
    requires
        cache.wf(),
        cache.entries().contains_key(key_of(color)),
    ensures
        cache.entries()[key_of(color)] == crate::quantize::quantized(color),
{
}

impl Default for QuantizationCache {
    /// An empty memory, switched off, that keeps at most 256 colours.
    fn default() -> (r: QuantizationCache)
        ensures
            r.wf(),
            !r.enabled(),
            r.limit() == DEFAULT_CACHE_SIZE,
            r.entries() == Map::<u32, u8>::empty(),
    {
        QuantizationCache::new(DEFAULT_CACHE_SIZE)
    }
}

/// Switches the memory on or off. What it holds stays.
pub fn set_color_cache_enabled(cache: &mut QuantizationCache, enabled: bool)
    requires
        old(cache).wf(),
    ensures
        final(cache).wf(),
        final(cache).enabled() == enabled,
        final(cache).limit() == old(cache).limit(),
        final(cache).entries() == old(cache).entries(),
{
    cache.enabled = enabled;
}

/// Sets the number of colours that the memory keeps at most. It forgets
/// colours only where it holds more than `size`.
pub fn set_color_cache_size(cache: &mut QuantizationCache, size: usize)
    requires
        old(cache).wf(),
        size > 0,
    ensures
        final(cache).wf(),
        final(cache).limit() == size,
        final(cache).enabled() == old(cache).enabled(),
        final(cache).entries().submap_of(old(cache).entries()),
        old(cache).entries().len() <= size ==> final(cache).entries() == old(cache).entries(),
{
    let ghost before = lru_entries(cache.entries);
    lru_resize(&mut cache.entries, size);
    proof {
        let after = lru_entries(cache.entries);
        assert forall|color: Rgb| #[trigger] after.contains_key(key_of(color)) implies after[key_of(
            color,
        )] == crate::quantize::quantized(color) by {
            assert(before.contains_key(key_of(color)));
        }
    }
}

impl TermProfile {
    /// What the profile makes of `color`, with `cache` to remember the
    /// colours that it quantizes: the same as without it.
    pub fn adapt_color_with(&self, cache: &mut QuantizationCache, color: Color) -> (r: Option<
        Color,
    >)
        requires
            old(cache).wf(),
        ensures
            final(cache).wf(),
            r == crate::adapt::adapted(*self, color),
            final(cache).enabled() == old(cache).enabled(),
            final(cache).limit() == old(cache).limit(),
    {
        if *self == TermProfile::Ansi16 || *self == TermProfile::Ansi256 {
            if let Color::Rgb(rgb) = color {
                let index = cache.rgb_to_ansi256(rgb);
                if *self == TermProfile::Ansi256 {
                    return Some(Color::Ansi256(index));
                } else {
                    return Some(Color::Ansi(ansi256_to_ansi(index)));
                }
            }
        }
        self.adapt_color(color)
    }

    /// What the profile makes of `style`, with `cache` to remember the
    /// colours that it quantizes: the same as without it.
    pub fn adapt_style_with(&self, cache: &mut QuantizationCache, style: Style) -> (r: Style)
        requires
            old(cache).wf(),
        ensures
            final(cache).wf(),
            r == crate::adapt::adapted_style(*self, style),
            final(cache).enabled() == old(cache).enabled(),
            final(cache).limit() == old(cache).limit(),
    {
        if *self == TermProfile::NoTty {
            return Style::new();
        }
        let mut style = style;
        if let Some(color) = style.get_fg_color() {
            style = style.fg_color(self.adapt_color_with(cache, color));
        }
        if let Some(color) = style.get_bg_color() {
            style = style.bg_color(self.adapt_color_with(cache, color));
        }
        if let Some(color) = style.get_underline_color() {
            style = style.underline_color(self.adapt_color_with(cache, color));
        }
        style
    }
}

} // verus!

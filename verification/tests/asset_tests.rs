use std::cell::RefCell;
use std::rc::Rc;

use engine_core::asset::Asset;
use engine_core::asset::AssetFailResponse;
use engine_core::asset::AssetLoader;
use engine_core::asset::Assets;
use engine_core::asset::DefaultingAsset;
use engine_core::asset::MandatoryAsset;
use engine_core::asset::StaticAsset;

// A sprite-like asset whose default is a recognizable placeholder.
#[derive(Debug, PartialEq, Clone)]
struct Sprite {
    pixels: u32,
}

impl Asset for Sprite {}

impl StaticAsset for Sprite {}

impl Default for Sprite {
    fn default() -> Self {
        Sprite { pixels: 77 }
    }
}

// A loader that fails for source 0 and otherwise loads a sprite of
// the source's size, substituting the default on failure.
struct SpriteLoader;

impl AssetLoader for SpriteLoader {
    type LoadError = String;
    type FailResponse = DefaultingAsset;
    type Source = u32;
    type Item = Sprite;

    // the ghost description of try_load's outcomes, as plain code
    fn may_load(src: u32, r: Result<Sprite, String>) -> bool {
        if src == 0 { r.is_err() } else { matches!(r, Ok(ref s) if s.pixels == src) }
    }

    fn try_load(src: u32) -> Result<Sprite, String> {
        if src == 0 {
            Err(String::from("no such sprite"))
        } else {
            Ok(Sprite { pixels: src })
        }
    }
}

#[test]
fn defaulting_load_failure_returns_exactly_the_default() {
    let got = SpriteLoader::load(0);
    assert_eq!(got, Sprite::default());
    assert_eq!(got.pixels, 77);
}

#[test]
fn defaulting_load_success_passes_through() {
    let got = SpriteLoader::load(41);
    assert_eq!(got, Sprite { pixels: 41 });
}

#[test]
fn defaulting_ensure_substitutes_default_on_error() {
    let got = <DefaultingAsset as AssetFailResponse<Sprite, String>>::ensure(Err(String::from(
        "damaged",
    )));
    assert_eq!(got, Sprite::default());
}

#[test]
fn defaulting_ensure_passes_success_through() {
    let got =
        <DefaultingAsset as AssetFailResponse<Sprite, String>>::ensure(Ok(Sprite { pixels: 5 }));
    assert_eq!(got, Sprite { pixels: 5 });
}

#[test]
fn mandatory_ensure_passes_success_through() {
    let got =
        <MandatoryAsset as AssetFailResponse<Sprite, String>>::ensure(Ok(Sprite { pixels: 9 }));
    assert_eq!(got, Sprite { pixels: 9 });
}

// An asset that records how often it was loaded and how often it was
// released, through counters shared with the test.
type Counters = &'static RefCell<(u32, u32)>;

#[derive(Debug)]
struct Probe {
    loaded_as: u32,
    counters: Counters,
}

impl Asset for Probe {}

impl StaticAsset for Probe {}

impl Drop for Probe {
    fn drop(&mut self) {
        self.counters.borrow_mut().1 += 1;
    }
}

struct ProbeLoader;

impl AssetLoader for ProbeLoader {
    type LoadError = String;
    type FailResponse = MandatoryAsset;
    type Source = (u32, Counters);
    type Item = Probe;

    // the ghost description of try_load's outcomes, as plain code
    fn may_load(_src: (u32, Counters), r: Result<Probe, String>) -> bool {
        r.is_ok()
    }

    fn try_load(src: (u32, Counters)) -> Result<Probe, String> {
        src.1.borrow_mut().0 += 1;
        let loaded_as = src.1.borrow().0;
        Ok(Probe { loaded_as, counters: src.1 })
    }
}

fn fresh_counters() -> Counters {
    Box::leak(Box::new(RefCell::new((0, 0))))
}

#[test]
fn get_hands_out_the_same_instance_for_the_same_source() {
    let counters = fresh_counters();
    let mut registry: Assets<ProbeLoader> = Assets::new();
    let first = registry.get((1, counters));
    let second = registry.get((1, counters));
    assert!(Rc::ptr_eq(&first, &second));
    assert_eq!(first.loaded_as, 1);
    assert_eq!(second.loaded_as, 1);
    assert_eq!(counters.borrow().0, 1);
}

#[test]
fn get_loads_distinct_sources_separately() {
    let counters = fresh_counters();
    let mut registry: Assets<ProbeLoader> = Assets::new();
    let first = registry.get((1, counters));
    let second = registry.get((2, counters));
    assert!(!Rc::ptr_eq(&first, &second));
    assert_eq!(counters.borrow().0, 2);
}

#[test]
fn dynamic_instance_is_released_once_after_every_owner_is_gone() {
    let counters = fresh_counters();
    let mut registry: Assets<ProbeLoader> = Assets::new();
    let first = registry.get((1, counters));
    let second = registry.get((1, counters));
    drop(first);
    assert_eq!(counters.borrow().1, 0);
    drop(second);
    // the registry still owns its resident handle
    assert_eq!(counters.borrow().1, 0);
    drop(registry);
    assert_eq!(counters.borrow().1, 1);
}

#[test]
fn get_static_loads_once_and_keeps_the_instance() {
    let counters = fresh_counters();
    let mut registry: Assets<ProbeLoader> = Assets::new();
    let first_load = registry.get_static((7, counters)).loaded_as;
    assert_eq!(first_load, 1);
    let second_load = registry.get_static((7, counters)).loaded_as;
    // still the instance of the first load: nothing was loaded again
    assert_eq!(second_load, 1);
    assert_eq!(counters.borrow().0, 1);
    assert_eq!(counters.borrow().1, 0);
}

#[test]
fn get_static_distinguishes_sources() {
    let counters = fresh_counters();
    let mut registry: Assets<ProbeLoader> = Assets::new();
    assert_eq!(registry.get_static((7, counters)).loaded_as, 1);
    assert_eq!(registry.get_static((8, counters)).loaded_as, 2);
    assert_eq!(registry.get_static((7, counters)).loaded_as, 1);
    assert_eq!(counters.borrow().0, 2);
}

#[test]
fn static_instances_live_until_the_registry_goes() {
    let counters = fresh_counters();
    let mut registry: Assets<ProbeLoader> = Assets::new();
    registry.get_static((7, counters));
    assert_eq!(counters.borrow().1, 0);
    drop(registry);
    assert_eq!(counters.borrow().1, 1);
}

//! The assets the game needs before it can leave the loading screen.
//!
//! Loading itself is the engine's work. Kept here is the list of what to
//! load, the record of the handles that came back, and the test of whether
//! all of them have arrived.

use std::collections::HashSet;
use vstd::prelude::*;

verus! {

/// What an asset is for.
#[derive(Debug, Clone, Copy, PartialEq, Eq, Structural, Hash)]
pub enum AssetKind {
    CharacterModel,
    TerrainTexture,
    MusicTrack,
    SoundEffect,
    UiTexture,
    Font,
}

/// How far the loading of one asset has come.
#[derive(Debug, Clone, Copy, PartialEq, Eq, Structural, Hash)]
pub enum LoadState {
    NotLoaded,
    Loading,
    Loaded,
    Failed,
}

/// An asset to ask the engine for.
#[derive(Debug, Clone, Copy, PartialEq, Eq)]
pub struct AssetRequest {
    pub kind: AssetKind,
    pub path: &'static str,
}

/// The handles of the game's assets, by kind, and the set of all of them.
pub struct GameAssets {
    pub character_models: Vec<u64>,
    pub terrain_textures: Vec<u64>,
    pub music_tracks: Vec<u64>,
    pub sound_effects: Vec<u64>,
    pub ui_textures: Vec<u64>,
    pub fonts: Vec<u64>,
    /// Every handle that is waited for.
    pub asset_handles: HashSet<u64>,
}

/// `GameAssets` as contracts see it.
pub struct GameAssetsView {
    pub character_models: Seq<u64>,
    pub terrain_textures: Seq<u64>,
    pub music_tracks: Seq<u64>,
    pub sound_effects: Seq<u64>,
    pub ui_textures: Seq<u64>,
    pub fonts: Seq<u64>,
    pub asset_handles: Set<u64>,
}

impl View for GameAssets {
    type V = GameAssetsView;

    open spec fn view(&self) -> GameAssetsView {
        GameAssetsView {
            character_models: self.character_models@,
            terrain_textures: self.terrain_textures@,
            music_tracks: self.music_tracks@,
            sound_effects: self.sound_effects@,
            ui_textures: self.ui_textures@,
            fonts: self.fonts@,
            asset_handles: self.asset_handles@,
        }
    }
}

impl GameAssetsView {
    /// No assets at all.
    pub open spec fn empty() -> GameAssetsView {
        GameAssetsView {
            character_models: Seq::empty(),
            terrain_textures: Seq::empty(),
            music_tracks: Seq::empty(),
            sound_effects: Seq::empty(),
            ui_textures: Seq::empty(),
            fonts: Seq::empty(),
            asset_handles: Set::empty(),
        }
    }

    /// The record after one more handle of the given kind: appended to the
    /// list of its kind and added to the set of all.
    pub open spec fn with_handle(self, kind: AssetKind, handle: u64) -> GameAssetsView {
        let noted = GameAssetsView { asset_handles: self.asset_handles.insert(handle), ..self };
        match kind {
            AssetKind::CharacterModel => GameAssetsView {
                character_models: self.character_models.push(handle),
                ..noted
            },
            AssetKind::TerrainTexture => GameAssetsView {
                terrain_textures: self.terrain_textures.push(handle),
                ..noted
            },
            AssetKind::MusicTrack => GameAssetsView {
                music_tracks: self.music_tracks.push(handle),
                ..noted
            },
            AssetKind::SoundEffect => GameAssetsView {
                sound_effects: self.sound_effects.push(handle),
                ..noted
            },
            AssetKind::UiTexture => GameAssetsView {
                ui_textures: self.ui_textures.push(handle),
                ..noted
            },
            AssetKind::Font => GameAssetsView { fonts: self.fonts.push(handle), ..noted },
        }
    }
}

impl GameAssets {
    /// A record with no assets.
    pub fn new() -> (r: GameAssets)
        ensures
            r@ == GameAssetsView::empty(),
    {
        GameAssets {
            character_models: Vec::new(),
            terrain_textures: Vec::new(),
            music_tracks: Vec::new(),
            sound_effects: Vec::new(),
            ui_textures: Vec::new(),
            fonts: Vec::new(),
            asset_handles: HashSet::new(),
        }
    }

    /// Records the handle that the engine gave for an asset of `kind`.
    pub fn track(&mut self, kind: AssetKind, handle: u64)
        ensures
            final(self)@ == old(self)@.with_handle(kind, handle),
    {
        broadcast use vstd::std_specs::hash::group_hash_axioms;

        match kind {
            AssetKind::CharacterModel => self.character_models.push(handle),
            AssetKind::TerrainTexture => self.terrain_textures.push(handle),
            AssetKind::MusicTrack => self.music_tracks.push(handle),
            AssetKind::SoundEffect => self.sound_effects.push(handle),
            AssetKind::UiTexture => self.ui_textures.push(handle),
            AssetKind::Font => self.fonts.push(handle),
        }
        self.asset_handles.insert(handle);
    }
}

/// The assets to ask for when the game starts, in the order they are asked
/// for.
pub fn load_assets() -> (r: Vec<AssetRequest>)
    ensures
        r.len() == 4,
        r[0].kind == AssetKind::CharacterModel && r[0].path@ == "models/character.glb"@,
        r[1].kind == AssetKind::TerrainTexture && r[1].path@ == "textures/terrain.png"@,
        r[2].kind == AssetKind::MusicTrack && r[2].path@ == "audio/background_music.ogg"@,
        r[3].kind == AssetKind::Font && r[3].path@ == "fonts/game_font.ttf"@,
{
    let mut requests: Vec<AssetRequest> = Vec::new();
    requests.push(AssetRequest { kind: AssetKind::CharacterModel, path: "models/character.glb" });
    requests.push(AssetRequest { kind: AssetKind::TerrainTexture, path: "textures/terrain.png" });
    requests.push(AssetRequest { kind: AssetKind::MusicTrack, path: "audio/background_music.ogg" });
    requests.push(AssetRequest { kind: AssetKind::Font, path: "fonts/game_font.ttf" });
    requests
}

/// Whether every asset has loaded, given the state of each handle that is
/// waited for. With nothing to wait for, everything has.
pub fn check_asset_loading(states: &Vec<LoadState>) -> (r: bool)
    ensures
        r == (forall|i: int| 0 <= i < states.len() ==> states[i] == LoadState::Loaded),
{
    let mut i: usize = 0;
    while i < states.len()
        invariant
            i <= states.len(),
            forall|k: int| 0 <= k < i ==> states[k] == LoadState::Loaded,
        decreases states.len() - i,
    {
        if states[i] != LoadState::Loaded {
            return false;
        }
        i += 1;
    }
    true
}

/// An asset out of a collection: for now always the first, and `None` from
/// an empty collection.
pub fn get_random_asset<T: Copy>(assets: &[T]) -> (r: Option<T>)
    ensures
        r == if assets@.len() == 0 {
            None
        } else {
            Some(assets@[0])
        },
{
    if assets.len() == 0 {
        return None;
    }
    Some(assets[0])
}

} // verus!

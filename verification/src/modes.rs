//! The mode controller: the Editor/Level transition protocol.
//!
//! The desired mode is a single discrete value. Each tick the controller
//! runs the exits whose guard holds, then the entries, so entering a mode is
//! idempotent and at most one mode's entities are ever live at a tick
//! boundary. Opening a level session spawns the descriptor's blocks in
//! order, a fresh player, the level camera and the attempts readout, and
//! resets the attempt counter; closing a session despawns exactly what its
//! entry spawned.

use vstd::prelude::*;

use crate::editor::EditorState;
use crate::level::{
    block_info_valid, kind_of_tag, parse_level_descriptor, spec_descriptor_of, spec_kind_of_tag,
    spec_records_result_view, BlockInfo, BlockKind, LevelError,
};
use crate::player::LevelState;
use crate::world::{
    entity_count, initial_editor_camera, initial_level_camera, initial_player,
    spec_initial_editor_camera, spec_initial_level_camera, spec_initial_player, Block, World,
    WorldView,
};

verus! {

/// The two mutually exclusive top-level modes.
#[derive(Clone, Copy, Debug, PartialEq, Eq, Structural)]
pub enum GameStateVariant {
    /// The level editor: a free camera, no player.
    Editor,
    /// A playable level session.
    Level,
}

/// The desired top-level mode; the command surface writes it, the
/// transition handlers read it.
#[derive(Clone, Copy, Debug, PartialEq, Eq, Structural)]
pub struct GameState {
    /// Which mode the application wants live.
    pub variant: GameStateVariant,
}

/// The mode selected at startup: an early configuration value of one asks
/// for a level session, anything else for the editor.
pub fn initial_game_state(early_mode: i32) -> (g: GameState)
    ensures
        g.variant == (if early_mode == 1 {
            GameStateVariant::Level
        } else {
            GameStateVariant::Editor
        }),
{
    GameState {
        variant: if early_mode == 1 {
            GameStateVariant::Level
        } else {
            GameStateVariant::Editor
        },
    }
}

/// The world as it stands after startup: one permanent ground strip and no
/// session entities.
pub fn setup_world() -> (w: World)
    ensures
        w@.static_blocks.len() == 1,
        w@.static_blocks[0].id == 2,
        w@.static_blocks[0].kind == BlockKind::Ground,
        w@.static_blocks[0].x == 0,
        w@.static_blocks[0].y == -320,
        w@.static_blocks[0].name matches Some(n) && n@ == "Ground"@,
        w@.level_blocks.len() == 0,
        w@.editor_blocks.len() == 0,
        w@.player is None,
        w@.level_camera is None,
        !w@.attempts_text,
        w@.editor_camera is None,
        !w@.editor_ui,
{
    let mut static_blocks: Vec<Block> = Vec::new();
    static_blocks.push(
        Block { id: 2, kind: BlockKind::Ground, x: 0, y: -320, name: Some("Ground".to_owned()) },
    );
    World {
        static_blocks,
        level_blocks: Vec::new(),
        editor_blocks: Vec::new(),
        player: None,
        level_camera: None,
        attempts_text: false,
        editor_camera: None,
        editor_ui: false,
    }
}

/// Editor entry: wanted and not yet live, it spawns the editor camera and
/// the selector panel, activates the session and thaws placement; already
/// live, it is a no-op.
pub open spec fn spec_editor_open(v: WorldView, gs: GameState, es: EditorState) -> (
    WorldView,
    EditorState,
) {
    if gs.variant == GameStateVariant::Editor && !es.active {
        (
            WorldView {
                editor_camera: Some(spec_initial_editor_camera()),
                editor_ui: true,
                ..v
            },
            EditorState { active: true, freeze_block_placing: false, ..es },
        )
    } else {
        (v, es)
    }
}

/// Open the editor session if it is wanted and not yet live; opening an
/// already-live editor changes nothing, the entity count included.
pub fn editor_open(w: &mut World, gs: &GameState, es: &mut EditorState)
    ensures
        (final(w)@, *final(es)) == spec_editor_open(old(w)@, *gs, *old(es)),
        old(es).active ==> final(w)@ == old(w)@ && *final(es) == *old(es),
{
    if gs.variant == GameStateVariant::Editor && !es.active {
        w.editor_camera = Some(initial_editor_camera());
        w.editor_ui = true;
        es.active = true;
        es.freeze_block_placing = false;
    }
}

/// Editor exit: live but no longer wanted, it despawns everything the
/// editor session owns — camera, selector panel and placed blocks — and
/// deactivates the session; otherwise it is a no-op.
pub open spec fn spec_editor_close(v: WorldView, gs: GameState, es: EditorState) -> (
    WorldView,
    EditorState,
) {
    if gs.variant == GameStateVariant::Level && es.active {
        (
            WorldView {
                editor_camera: None,
                editor_ui: false,
                editor_blocks: Seq::empty(),
                ..v
            },
            EditorState { active: false, ..es },
        )
    } else {
        (v, es)
    }
}

/// Close the editor session when another mode is wanted while it is live.
pub fn editor_close(w: &mut World, gs: &GameState, es: &mut EditorState)
    ensures
        (final(w)@, *final(es)) == spec_editor_close(old(w)@, *gs, *old(es)),
{
    if gs.variant == GameStateVariant::Level && es.active {
        w.editor_camera = None;
        w.editor_ui = false;
        w.editor_blocks = Vec::new();
        es.active = false;
    }
}

/// The block a descriptor record spawns: its visual id, the kind its
/// purpose tag selects, its coordinates taken verbatim, and its display
/// name.
pub open spec fn spec_block_of_record(r: BlockInfo) -> Block {
    Block {
        id: r.id,
        kind: spec_kind_of_tag(r.marker_type),
        x: r.coords.0,
        y: r.coords.1,
        name: Some(r.name),
    }
}

/// The blocks a whole descriptor spawns, in record order.
pub open spec fn spec_level_blocks(records: Seq<BlockInfo>) -> Seq<Block> {
    records.map(|i: int, r: BlockInfo| spec_block_of_record(r))
}

/// Level entry: wanted and not yet live, it spawns one block per descriptor
/// record in order, a fresh player at the starting position, the level
/// camera and the attempts readout, resets the attempt counter to zero and
/// activates the session; already live, it is a no-op.
pub open spec fn spec_level_open(
    v: WorldView,
    gs: GameState,
    ls: LevelState,
    records: Seq<BlockInfo>,
) -> (WorldView, LevelState) {
    if gs.variant == GameStateVariant::Level && !ls.active {
        (
            WorldView {
                level_blocks: spec_level_blocks(records),
                player: Some(spec_initial_player()),
                level_camera: Some(spec_initial_level_camera()),
                attempts_text: true,
                ..v
            },
            LevelState { attempts: 0, active: true },
        )
    } else {
        (v, ls)
    }
}

/// Open a level session from an already-validated descriptor. An open that
/// fires spawns exactly one player, one camera, the attempts readout and
/// one block per record; on a world holding no level entities that raises
/// the entity count by the record count plus three.
pub fn level_open(w: &mut World, gs: &GameState, ls: &mut LevelState, records: &Vec<BlockInfo>)
    ensures
        (final(w)@, *final(ls)) == spec_level_open(old(w)@, *gs, *old(ls), records@),
        old(ls).active ==> final(w)@ == old(w)@ && *final(ls) == *old(ls),
        gs.variant == GameStateVariant::Level && !old(ls).active ==> final(w)@.player is Some
            && final(w)@.level_camera is Some && final(w)@.level_blocks.len() == records@.len()
            && final(ls).attempts == 0,
        gs.variant == GameStateVariant::Level && !old(ls).active && old(w)@.player is None
            && old(w)@.level_camera is None && !old(w)@.attempts_text
            && old(w)@.level_blocks.len() == 0 ==> entity_count(final(w)@) == entity_count(old(w)@)
            + records@.len() + 3,
{
    if gs.variant == GameStateVariant::Level && !ls.active {
        let mut blocks: Vec<Block> = Vec::new();
        let mut i: usize = 0;
        while i < records.len()
            invariant
                0 <= i <= records@.len(),
                blocks@ == spec_level_blocks(records@.take(i as int)),
            decreases records@.len() - i,
        {
            let r = &records[i];
            blocks.push(
                Block {
                    id: r.id,
                    kind: kind_of_tag(r.marker_type),
                    x: r.coords.0,
                    y: r.coords.1,
                    name: Some(r.name.clone()),
                },
            );
            proof {
                assert(records@.take(i + 1).map(
                    |k: int, rec: BlockInfo| spec_block_of_record(rec),
                ) =~= records@.take(i as int).map(
                    |k: int, rec: BlockInfo| spec_block_of_record(rec),
                ).push(spec_block_of_record(records@[i as int])));
            }
            i += 1;
        }
        proof {
            assert(records@.take(records@.len() as int) =~= records@);
        }
        w.level_blocks = blocks;
        w.player = Some(initial_player());
        w.level_camera = Some(initial_level_camera());
        w.attempts_text = true;
        ls.attempts = 0;
        ls.active = true;
    }
}

/// Open a level session straight from descriptor text. The text decides:
/// exactly when it holds a well-formed, valid descriptor — in the sense of
/// `spec_descriptor_of`, the named result of the JSON parse — its records
/// come back and the session opens on them as `level_open` says; any other
/// text reports exactly its first error and leaves the world, the session
/// state and the current mode's entities as they were — no half-spawned
/// session.
pub fn open_level_from_text(w: &mut World, gs: &GameState, ls: &mut LevelState, text: &str) -> (r:
    Result<Vec<BlockInfo>, LevelError>)
    ensures
        spec_records_result_view(r) == spec_descriptor_of(text@),
        r matches Ok(records) ==> (final(w)@, *final(ls)) == spec_level_open(
            old(w)@,
            *gs,
            *old(ls),
            records@,
        ),
        r matches Ok(records) ==> forall|i: int|
            0 <= i < records@.len() ==> block_info_valid(#[trigger] records@[i]),
        r is Err ==> final(w)@ == old(w)@ && *final(ls) == *old(ls),
{
    match parse_level_descriptor(text) {
        Ok(records) => {
            level_open(w, gs, ls, &records);
            Ok(records)
        },
        Err(e) => Err(e),
    }
}

/// Level exit: live but no longer wanted, it despawns everything the level
/// session owns — blocks, player, camera and attempts readout — and
/// deactivates the session, keeping the attempt count; otherwise a no-op.
pub open spec fn spec_level_close(v: WorldView, gs: GameState, ls: LevelState) -> (
    WorldView,
    LevelState,
) {
    if gs.variant == GameStateVariant::Editor && ls.active {
        (
            WorldView {
                level_blocks: Seq::empty(),
                player: None,
                level_camera: None,
                attempts_text: false,
                ..v
            },
            LevelState { active: false, ..ls },
        )
    } else {
        (v, ls)
    }
}

/// Close the level session when another mode is wanted while it is live: a
/// close that fires leaves no level entity behind.
pub fn level_close(w: &mut World, gs: &GameState, ls: &mut LevelState)
    ensures
        (final(w)@, *final(ls)) == spec_level_close(old(w)@, *gs, *old(ls)),
        gs.variant == GameStateVariant::Editor && old(ls).active ==> final(w)@.player is None
            && final(w)@.level_camera is None && final(w)@.level_blocks.len() == 0
            && !final(w)@.attempts_text,
{
    if gs.variant == GameStateVariant::Editor && ls.active {
        w.level_blocks = Vec::new();
        w.player = None;
        w.level_camera = None;
        w.attempts_text = false;
        ls.active = false;
    }
}

/// One tick of the mode controller: the exits run before the entries, so a
/// changed desired mode tears the outgoing session down and brings the
/// incoming one up within the tick, and an unchanged desired mode changes
/// nothing.
pub open spec fn spec_mode_tick(
    v: WorldView,
    gs: GameState,
    es: EditorState,
    ls: LevelState,
    records: Seq<BlockInfo>,
) -> (WorldView, EditorState, LevelState) {
    let (v1, es1) = spec_editor_close(v, gs, es);
    let (v2, ls1) = spec_level_close(v1, gs, ls);
    let (v3, es2) = spec_editor_open(v2, gs, es1);
    let (v4, ls2) = spec_level_open(v3, gs, ls1, records);
    (v4, es2, ls2)
}

/// Run one tick of the mode controller: both exits, then both entries, each
/// guarded on the desired mode and its session's live flag.
pub fn mode_tick(
    w: &mut World,
    gs: &GameState,
    es: &mut EditorState,
    ls: &mut LevelState,
    records: &Vec<BlockInfo>,
)
    ensures
        (final(w)@, *final(es), *final(ls)) == spec_mode_tick(
            old(w)@,
            *gs,
            *old(es),
            *old(ls),
            records@,
        ),
{
    editor_close(w, gs, es);
    level_close(w, gs, ls);
    editor_open(w, gs, es);
    level_open(w, gs, ls, records);
}

/// The mode-state invariant: at most one mode's entities are live, and each
/// session's live flag matches exactly the presence of the entities that
/// session owns.
pub open spec fn mode_inv(v: WorldView, es: EditorState, ls: LevelState) -> bool {
    &&& !(es.active && ls.active)
    &&& es.active == (v.editor_camera is Some)
    &&& es.active == v.editor_ui
    &&& (!es.active ==> v.editor_blocks.len() == 0)
    &&& ls.active == (v.player is Some)
    &&& ls.active == (v.level_camera is Some)
    &&& ls.active == v.attempts_text
    &&& (!ls.active ==> v.level_blocks.len() == 0)
}

/// A world fresh out of `setup_world` satisfies the mode-state invariant
/// with both sessions closed.
pub proof fn lemma_setup_satisfies_inv(v: WorldView, es: EditorState, ls: LevelState)
    requires
        !es.active,
        !ls.active,
        v.editor_camera is None,
        !v.editor_ui,
        v.editor_blocks.len() == 0,
        v.player is None,
        v.level_camera is None,
        !v.attempts_text,
        v.level_blocks.len() == 0,
    ensures
        mode_inv(v, es, ls),
{
}

/// The mode controller preserves the mode-state invariant: whatever mode is
/// desired, a tick carries an invariant-respecting state to another one.
pub proof fn lemma_mode_tick_preserves_inv(
    v: WorldView,
    gs: GameState,
    es: EditorState,
    ls: LevelState,
    records: Seq<BlockInfo>,
)
    requires
        mode_inv(v, es, ls),
    ensures
        ({
            let (v2, es2, ls2) = spec_mode_tick(v, gs, es, ls, records);
            mode_inv(v2, es2, ls2)
        }),
{
}

/// Entering a mode is idempotent: opening the editor while it is live, or a
/// level while one is live, changes nothing — in particular the entity
/// count stays what it was.
pub proof fn lemma_open_idempotent(
    v: WorldView,
    es: EditorState,
    ls: LevelState,
    records: Seq<BlockInfo>,
)
    requires
        es.active,
    ensures
        spec_editor_open(v, GameState { variant: GameStateVariant::Editor }, es) == (v, es),
        ls.active ==> spec_level_open(
            v,
            GameState { variant: GameStateVariant::Level },
            ls,
            records,
        ) == (v, ls),
        entity_count(spec_editor_open(v, GameState { variant: GameStateVariant::Editor }, es).0)
            == entity_count(v),
{
}

/// The round trip Editor to Level and back: starting from a fresh editor
/// session, switching the desired mode to Level and back to Editor leaves
/// zero level entities, a closed level session, and exactly the editor
/// entity set it started with — the world returns to where it began.
pub proof fn lemma_mode_round_trip(
    v: WorldView,
    es: EditorState,
    ls: LevelState,
    records: Seq<BlockInfo>,
    later_records: Seq<BlockInfo>,
)
    requires
        mode_inv(v, es, ls),
        es.active,
        !ls.active,
        v.editor_camera == Some(spec_initial_editor_camera()),
        v.editor_blocks.len() == 0,
    ensures
        ({
            let (v1, es1, ls1) = spec_mode_tick(
                v,
                GameState { variant: GameStateVariant::Level },
                es,
                ls,
                records,
            );
            let (v2, es2, ls2) = spec_mode_tick(
                v1,
                GameState { variant: GameStateVariant::Editor },
                es1,
                ls1,
                later_records,
            );
            v2 == v && es2.active && !ls2.active && entity_count(v2) == entity_count(v)
                && v1.level_blocks == spec_level_blocks(records)
        }),
{
    let (v1, es1, ls1) = spec_mode_tick(
        v,
        GameState { variant: GameStateVariant::Level },
        es,
        ls,
        records,
    );
    let (v2, es2, ls2) = spec_mode_tick(
        v1,
        GameState { variant: GameStateVariant::Editor },
        es1,
        ls1,
        later_records,
    );
    assert(v.editor_blocks =~= Seq::<Block>::empty());
    assert(v.level_blocks =~= Seq::<Block>::empty());
    assert(v2 =~= v);
}

} // verus!

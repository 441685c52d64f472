//! What is shown of a body: the direction its visual faces and the clip it plays.
//!
//! Visuals live in a table of their own, apart from the bodies, and a body
//! reaches its visual through its link: the slot of the table that the link
//! names. The stages here read the bodies and write the table.

use vstd::prelude::*;
use crate::body::{models, Body, BodyModel};
use crate::components::{CharacterAnimations, ClipHandle};
use crate::fixed::Fixed;
use crate::animation_link::AnimationEntityLink;
use crate::vector::{v_approx_zero, v_horizontal, view_opt, Vec3, Vector};

verus! {

/// Playback state of one visual.
#[derive(Clone, Copy, Debug, PartialEq, Eq)]
pub struct AnimationPlayer {
    /// The clip being played, if any.
    pub clip: Option<ClipHandle>,
    /// Whether the clip starts over when it ends.
    pub repeat: bool,
    /// Seconds played of the clip.
    pub elapsed: Fixed,
}

/// Model of an [`AnimationPlayer`].
pub struct PlayerModel {
    pub clip: Option<ClipHandle>,
    pub repeat: bool,
    pub elapsed: int,
}

impl View for AnimationPlayer {
    type V = PlayerModel;

    open spec fn view(&self) -> PlayerModel {
        PlayerModel { clip: self.clip, repeat: self.repeat, elapsed: self.elapsed@ }
    }
}

/// The player after it was asked to play `clip`: untouched when it plays
/// that clip already, else at the start of `clip` and not repeating.
pub open spec fn played(player: PlayerModel, clip: ClipHandle) -> PlayerModel {
    if player.clip == Some(clip) {
        player
    } else {
        PlayerModel { clip: Some(clip), repeat: false, elapsed: 0 }
    }
}

/// The player after it was told to repeat its clip.
pub open spec fn repeated(player: PlayerModel) -> PlayerModel {
    PlayerModel { repeat: true, ..player }
}

impl AnimationPlayer {
    /// A player that plays nothing.
    pub fn new() -> (r: AnimationPlayer)
        ensures
            r@ == (PlayerModel { clip: None, repeat: false, elapsed: 0 }),
    {
        AnimationPlayer { clip: None, repeat: false, elapsed: Fixed::zero() }
    }

    /// Starts `clip`, unless it is the clip that plays.
    pub fn play(&mut self, clip: ClipHandle)
        ensures
            final(self)@ == played(old(self)@, clip),
    {
        let same = match self.clip {
            Some(current) => current.id == clip.id,
            None => false,
        };
        if !same {
            self.clip = Some(clip);
            self.repeat = false;
            self.elapsed = Fixed::zero();
        }
    }

    /// Makes the clip start over whenever it ends.
    pub fn repeat(&mut self)
        ensures
            final(self)@ == repeated(old(self)@),
    {
        self.repeat = true;
    }
}

/// The visual of a body.
#[derive(Clone, Copy, Debug, PartialEq, Eq)]
pub struct Visual {
    /// Horizontal direction that the visual looks along.
    pub facing: Vec3,
    pub player: AnimationPlayer,
}

/// Model of a [`Visual`].
pub struct VisualModel {
    pub facing: Vector,
    pub player: PlayerModel,
}

impl View for Visual {
    type V = VisualModel;

    open spec fn view(&self) -> VisualModel {
        VisualModel { facing: self.facing@, player: self.player@ }
    }
}

/// Models of a table of visuals, slot by slot.
pub open spec fn visual_models(visuals: Seq<Option<Visual>>) -> Seq<Option<VisualModel>> {
    Seq::new(
        visuals.len(),
        |i: int|
            match visuals[i] {
                Some(visual) => Some(visual@),
                None => None,
            },
    )
}

/// True when the slot that `link` names exists and holds a visual.
pub open spec fn resolves(link: AnimationEntityLink, visuals: Seq<Option<VisualModel>>) -> bool {
    link.slot() < visuals.len() && visuals[link.slot()] is Some
}

/// What a character is doing, as far as its animation goes.
#[derive(Clone, Copy, Debug, PartialEq, Eq, Structural)]
pub enum Locomotion {
    Idle,
    Walk,
    Aerial,
}

/// In the air beats moving, and moving beats standing.
pub open spec fn locomotion_of(grounded: bool, has_horizontal_movement: bool) -> Locomotion {
    if !grounded {
        Locomotion::Aerial
    } else if has_horizontal_movement {
        Locomotion::Walk
    } else {
        Locomotion::Idle
    }
}

/// The clip that shows `state`.
pub open spec fn clip_of(animations: CharacterAnimations, state: Locomotion) -> ClipHandle {
    match state {
        Locomotion::Idle => animations.idle,
        Locomotion::Walk => animations.walk,
        Locomotion::Aerial => animations.aerial,
    }
}

/// Horizontal part of the displacement that the body actually made.
pub open spec fn horizontal_movement(body: BodyModel) -> Vector {
    v_horizontal(body.output.effective_translation)
}

/// The state shown for a body, from its ground classification and its
/// resolved horizontal displacement.
pub open spec fn locomotion(body: BodyModel) -> Locomotion {
    locomotion_of(body.grounded, !v_approx_zero(horizontal_movement(body)))
}

/// The clip that a body calls for.
pub open spec fn selected_clip(body: BodyModel) -> ClipHandle {
    clip_of(body.animations, locomotion(body))
}

/// The direction that the visual of a body is to turn to: its horizontal
/// displacement, or nothing when that is too short to give a direction.
pub open spec fn facing_target(body: BodyModel) -> Option<Vector> {
    if v_approx_zero(horizontal_movement(body)) {
        None
    } else {
        Some(horizontal_movement(body))
    }
}

/// Whether turning the visual of `body` reads the table at all.
pub open spec fn turns(body: BodyModel) -> bool {
    body.link is Some && facing_target(body) is Some
}

/// The table after the visual of `body` has turned.
pub open spec fn rotated(body: BodyModel, visuals: Seq<Option<VisualModel>>) -> Seq<
    Option<VisualModel>,
> {
    if turns(body) {
        let slot = body.link.unwrap().slot();
        visuals.update(
            slot,
            Some(VisualModel { facing: facing_target(body).unwrap(), ..visuals[slot].unwrap() }),
        )
    } else {
        visuals
    }
}

/// The table after the visuals of the first `n` bodies have turned, in order.
pub open spec fn rotated_through(
    bodies: Seq<BodyModel>,
    visuals: Seq<Option<VisualModel>>,
    n: nat,
) -> Seq<Option<VisualModel>>
    decreases n,
{
    if n == 0 {
        visuals
    } else {
        rotated(bodies[n - 1], rotated_through(bodies, visuals, (n - 1) as nat))
    }
}

/// The table after the visual of `body` was told to play, on repeat, the clip
/// that the body calls for.
pub open spec fn animated(body: BodyModel, visuals: Seq<Option<VisualModel>>) -> Seq<
    Option<VisualModel>,
> {
    if body.link is Some {
        let slot = body.link.unwrap().slot();
        let visual = visuals[slot].unwrap();
        visuals.update(
            slot,
            Some(
                VisualModel {
                    player: repeated(played(visual.player, selected_clip(body))),
                    ..visual
                },
            ),
        )
    } else {
        visuals
    }
}

/// The table after the first `n` bodies have chosen their clips, in order.
pub open spec fn animated_through(
    bodies: Seq<BodyModel>,
    visuals: Seq<Option<VisualModel>>,
    n: nat,
) -> Seq<Option<VisualModel>>
    decreases n,
{
    if n == 0 {
        visuals
    } else {
        animated(bodies[n - 1], animated_through(bodies, visuals, (n - 1) as nat))
    }
}

/// Chooses what to show of a character from its ground state and from
/// whether it made horizontal way.
pub fn select_animation(grounded: bool, has_horizontal_movement: bool) -> (r: Locomotion)
    ensures
        r == locomotion_of(grounded, has_horizontal_movement),
{
    if !grounded {
        Locomotion::Aerial
    } else if has_horizontal_movement {
        Locomotion::Walk
    } else {
        Locomotion::Idle
    }
}

impl CharacterAnimations {
    /// The clip that shows `state`.
    pub fn clip(&self, state: Locomotion) -> (r: ClipHandle)
        ensures
            r == clip_of(*self, state),
    {
        match state {
            Locomotion::Idle => self.idle,
            Locomotion::Walk => self.walk,
            Locomotion::Aerial => self.aerial,
        }
    }
}

impl Body {
    /// What the body is doing, as far as its animation goes.
    pub fn locomotion(&self) -> (r: Locomotion)
        ensures
            r == locomotion(self@),
    {
        let has_horizontal_movement = !self.output.effective_translation.x0z().is_approx_zero();
        select_animation(self.grounded.is_grounded(), has_horizontal_movement)
    }

    /// The clip that the body calls for.
    pub fn selected_clip(&self) -> (r: ClipHandle)
        ensures
            r == selected_clip(self@),
    {
        self.animations.clip(self.locomotion())
    }

    /// The direction that the visual is to turn to, if the body made horizontal way.
    pub fn facing_target(&self) -> (r: Option<Vec3>)
        ensures
            view_opt(r) == facing_target(self@),
    {
        let horizontal_movement = self.output.effective_translation.x0z();
        if horizontal_movement.is_approx_zero() {
            None
        } else {
            Some(horizontal_movement)
        }
    }
}

/// Turns the visual of every linked body to face the way the body moved.
/// A body that made no horizontal way leaves its visual as it is.
pub fn rotate_model(bodies: &Vec<Body>, visuals: &mut Vec<Option<Visual>>)
    requires
        forall|i: int|
            0 <= i < bodies@.len() && turns(#[trigger] bodies@[i]@) ==> resolves(
                bodies@[i].link.unwrap(),
                visual_models(old(visuals)@),
            ),
    ensures
        visual_models(final(visuals)@) == rotated_through(
            models(bodies@),
            visual_models(old(visuals)@),
            bodies@.len(),
        ),
        final(visuals)@.len() == old(visuals)@.len(),
        forall|k: int|
            0 <= k < old(visuals)@.len() ==> (#[trigger] final(visuals)@[k] is Some <==> old(
                visuals,
            )@[k] is Some),
{
    let n = bodies.len();
    let mut i: usize = 0;
    while i < n
        invariant
            i <= n,
            n == bodies@.len(),
            visuals@.len() == old(visuals)@.len(),
            forall|k: int|
                0 <= k < visuals@.len() ==> (#[trigger] visuals@[k] is Some <==> old(
                    visuals,
                )@[k] is Some),
            forall|j: int|
                0 <= j < bodies@.len() && turns(#[trigger] bodies@[j]@) ==> resolves(
                    bodies@[j].link.unwrap(),
                    visual_models(old(visuals)@),
                ),
            visual_models(visuals@) == rotated_through(
                models(bodies@),
                visual_models(old(visuals)@),
                i as nat,
            ),
        decreases n - i,
    {
        let body = &bodies[i];
        let ghost before = visuals@;
        if let Some(link) = body.link {
            if let Some(direction) = body.facing_target() {
                let slot = link.0.index() as usize;
                if let Some(visual) = visuals[slot] {
                    visuals.set(slot, Some(Visual { facing: direction, ..visual }));
                }
            }
        }
        proof {
            assert(models(bodies@)[i as int] == bodies@[i as int]@);
            assert(visual_models(visuals@) =~= rotated(bodies@[i as int]@, visual_models(before)));
        }
        i += 1;
    }
}

/// Tells the visual of every linked body to play, on repeat, the clip for
/// what the body is doing. A visual that plays that clip already plays on.
pub fn play_animations(visuals: &mut Vec<Option<Visual>>, bodies: &Vec<Body>)
    requires
        forall|i: int|
            0 <= i < bodies@.len() && (#[trigger] bodies@[i]).link is Some ==> resolves(
                bodies@[i].link.unwrap(),
                visual_models(old(visuals)@),
            ),
    ensures
        visual_models(final(visuals)@) == animated_through(
            models(bodies@),
            visual_models(old(visuals)@),
            bodies@.len(),
        ),
        final(visuals)@.len() == old(visuals)@.len(),
        forall|k: int|
            0 <= k < old(visuals)@.len() ==> (#[trigger] final(visuals)@[k] is Some <==> old(
                visuals,
            )@[k] is Some),
{
    let n = bodies.len();
    let mut i: usize = 0;
    while i < n
        invariant
            i <= n,
            n == bodies@.len(),
            visuals@.len() == old(visuals)@.len(),
            forall|k: int|
                0 <= k < visuals@.len() ==> (#[trigger] visuals@[k] is Some <==> old(
                    visuals,
                )@[k] is Some),
            forall|j: int|
                0 <= j < bodies@.len() && (#[trigger] bodies@[j]).link is Some ==> resolves(
                    bodies@[j].link.unwrap(),
                    visual_models(old(visuals)@),
                ),
            visual_models(visuals@) == animated_through(
                models(bodies@),
                visual_models(old(visuals)@),
                i as nat,
            ),
        decreases n - i,
    {
        let body = &bodies[i];
        let ghost before = visuals@;
        if let Some(link) = body.link {
            let slot = link.0.index() as usize;
            if let Some(visual) = visuals[slot] {
                let mut player = visual.player;
                player.play(body.selected_clip());
                player.repeat();
                visuals.set(slot, Some(Visual { player, ..visual }));
            }
        }
        proof {
            assert(models(bodies@)[i as int] == bodies@[i as int]@);
            assert(visual_models(visuals@) =~= animated(bodies@[i as int]@, visual_models(before)));
        }
        i += 1;
    }
}

} // verus!

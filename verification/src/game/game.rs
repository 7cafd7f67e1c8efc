//! The tick: which stages run, in which order, and how long the loop
//! rests between two ticks.

use crate::data::duration::Duration;
use crate::game::components::clients::GameClient;
use vstd::prelude::*;

verus! {

/// The ticks per second that the world runs at.
pub const TICK_RATE_HZ: u64 = 30;

/// A stage of a tick.
#[derive(Copy, Clone, Debug, PartialEq, Eq, Structural)]
pub enum Stage {
    ControlServer,
    LoginServerAuthentication,
    LoginServer,
    WorldServerAuthentication,
    WorldServer,
    GameServerAuthentication,
    GameServerJoin,
    GameServerMove,
    /// The entity store applies the structural changes that the stages
    /// before have asked for.
    Flush,
    Command,
    UpdatePosition,
    ClientEntityVisibility,
    MonsterSpawn,
    NpcAi,
    BotAi,
    ApplyDamage,
    ApplyPendingXp,
    StatusEffect,
    ExpireTime,
    Weight,
    Save,
    ServerMessagesSender,
    CleanupUnreadMessages,
}

/// The stages of a tick in the order in which they run.
pub open spec fn schedule() -> Seq<Stage> {
    seq![
        Stage::ControlServer,
        Stage::LoginServerAuthentication,
        Stage::LoginServer,
        Stage::WorldServerAuthentication,
        Stage::WorldServer,
        Stage::GameServerAuthentication,
        Stage::GameServerJoin,
        Stage::GameServerMove,
        Stage::Flush,
        Stage::Command,
        Stage::UpdatePosition,
        Stage::ClientEntityVisibility,
        Stage::MonsterSpawn,
        Stage::NpcAi,
        Stage::BotAi,
        Stage::ApplyDamage,
        Stage::ApplyPendingXp,
        Stage::StatusEffect,
        Stage::ExpireTime,
        Stage::Weight,
        Stage::Save,
        Stage::ServerMessagesSender,
        Stage::CleanupUnreadMessages,
    ]
}

/// Drops the requests of the connection that no stage of this tick has
/// read.
pub fn cleanup_unread_messages(client: &mut GameClient)
    ensures
        final(client).pending_messages@.len() == 0,
        final(client).login_token == old(client).login_token,
        final(client).outbound_messages == old(client).outbound_messages,
{
    client.pending_messages.clear();
}

/// The loop that runs the world.
#[derive(Copy, Clone, Debug, PartialEq, Eq, Structural)]
pub struct Game {
    tick_rate_hz: u64,
}

impl Game {
    #[verifier::type_invariant]
    spec fn well_formed(self) -> bool {
        self.tick_rate_hz != 0
    }

    /// The ticks per second that the loop aims at.
    pub closed spec fn rate(self) -> u64 {
        self.tick_rate_hz
    }

    /// The time from the start of one tick to the start of the next, in
    /// whole milliseconds.
    pub open spec fn period_millis(self) -> int {
        1000int / (self.rate() as int)
    }

    /// What is left of the period once a tick has taken `elapsed`: the
    /// time to rest before the next tick. A tick that overran is followed
    /// by the next at once; the time it took too long is not made up for.
    pub open spec fn rest_nanos(self, elapsed: Duration) -> int {
        let period = self.period_millis() * 1_000_000;
        if elapsed.total_nanos() >= period {
            0
        } else {
            period - elapsed.total_nanos()
        }
    }

    pub fn new() -> (game: Game)
        ensures
            game.rate() == TICK_RATE_HZ,
    {
        Game { tick_rate_hz: TICK_RATE_HZ }
    }

    pub fn tick_rate_hz(&self) -> (rate: u64)
        ensures
            rate == self.rate(),
            rate != 0,
    {
        proof {
            use_type_invariant(self);
        }
        self.tick_rate_hz
    }

    /// The time from the start of one tick to the start of the next.
    pub fn min_tick_duration(&self) -> (period: Duration)
        ensures
            period.total_nanos() == self.period_millis() * 1_000_000,
    {
        proof {
            use_type_invariant(self);
        }
        Duration::from_millis(1000 / self.tick_rate_hz)
    }

    /// How long the loop rests after a tick that took `elapsed`.
    pub fn rest_after_tick(&self, elapsed: &Duration) -> (rest: Duration)
        ensures
            rest.total_nanos() == self.rest_nanos(*elapsed),
    {
        self.min_tick_duration().saturating_sub(elapsed)
    }

    /// The stages of a tick in the order in which they run.
    pub fn stages(&self) -> (stages: Vec<Stage>)
        ensures
            stages@ == schedule(),
    {
        let mut stages: Vec<Stage> = Vec::new();
        stages.push(Stage::ControlServer);
        stages.push(Stage::LoginServerAuthentication);
        stages.push(Stage::LoginServer);
        stages.push(Stage::WorldServerAuthentication);
        stages.push(Stage::WorldServer);
        stages.push(Stage::GameServerAuthentication);
        stages.push(Stage::GameServerJoin);
        stages.push(Stage::GameServerMove);
        stages.push(Stage::Flush);
        stages.push(Stage::Command);
        stages.push(Stage::UpdatePosition);
        stages.push(Stage::ClientEntityVisibility);
        stages.push(Stage::MonsterSpawn);
        stages.push(Stage::NpcAi);
        stages.push(Stage::BotAi);
        stages.push(Stage::ApplyDamage);
        stages.push(Stage::ApplyPendingXp);
        stages.push(Stage::StatusEffect);
        stages.push(Stage::ExpireTime);
        stages.push(Stage::Weight);
        stages.push(Stage::Save);
        stages.push(Stage::ServerMessagesSender);
        stages.push(Stage::CleanupUnreadMessages);
        assert(stages@ =~= schedule());
        stages
    }
}

} // verus!

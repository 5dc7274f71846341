//! The conversation held with a user who sends `/start`.
use vstd::prelude::*;

use crate::classify::{classify, is_landlord, is_landlord_spec, status_of, UserStatus};
use crate::locations::{locations, places_of};
use crate::neighbors::{is_neighbor_list, neighbors};
use crate::records::{ComingoutPost, KnownUser, NeighborMessage, Place};
use crate::text::{append_decimal, decimal_of};

verus! {

/// A text message that the bot sends.
#[derive(Clone, Copy, Debug, PartialEq, Eq, Structural)]
pub enum Reply {
    /// Greeting of a user without membership.
    Stranger,
    /// Greeting of a member who joined too recently.
    NewMember,
    /// Greeting of a trusted member.
    Welcome,
    /// The user has claimed no location.
    NoPlace,
    /// The user has claimed exactly this location.
    OnePlace { building: i64, floor: i64 },
    /// A landlord has claimed several locations.
    LandlordPlaces,
    /// A user who is no landlord has claimed several locations.
    SeveralPlaces,
    /// No neighbour's post is known.
    NoNeighbors,
    /// Neighbours' posts follow.
    NeighborsFound,
    /// Something failed while answering.
    Failure,
}

/// The words of each reply.
pub open spec fn reply_text(r: Reply) -> Seq<char> {
    match r {
        Reply::Stranger => "Простите, я вас не знаю."@,
        Reply::NewMember => "Вы совсем недавно присоединились к нашему уютному чатику, мне нужно время, чтобы узнать вас получше.\nВозвращайтесь через пару часов."@,
        Reply::Welcome => "Привет! Я робот. Могу помочь вам найти соседей."@,
        Reply::NoPlace => "Увы, не знаю, где вы живёте.\nЧтобы это исправить, вам нужно в чатик ЖК отправить сообщение вида #Xкорпус #Yэтаж. Например '#3корпус #11этаж'. Минут через пять после этого возвращайтесь и ещё раз нажмите /start."@,
        Reply::OnePlace { building, floor } => "Похоже, что вы живёте в "@ + decimal_of(building as int)
            + "-м корпусе на "@ + decimal_of(floor as int) + "-м этаже."@,
        Reply::LandlordPlaces => "Оу, я вижу вы занимаете сразу несколько этажей."@,
        Reply::SeveralPlaces => "Какая неожиданность. Похоже вы отправили несколько сообщений с указанием своего этажа. Теперь я не знаю как быть. Попробуйте написать в общий чатик."@,
        Reply::NoNeighbors => "Я не знаю ваших соседей, мне очень жаль. Попробуйте зайти ещё когда-нибудь и снова нажать /start."@,
        Reply::NeighborsFound => "У вас есть соседи. Сейчас перешлю их сообщения."@,
        Reply::Failure => "Что-то пошло не так. Попробуйте ещё раз /start через некоторое время.\n Или пожалуйтесь в общий чатик."@,
    }
}

impl Reply {
    /// The words of the reply.
    pub fn text(&self) -> (r: String)
        ensures
            r@ == reply_text(*self),
    {
        match *self {
            Reply::Stranger => String::from_str("Простите, я вас не знаю."),
            Reply::NewMember => String::from_str("Вы совсем недавно присоединились к нашему уютному чатику, мне нужно время, чтобы узнать вас получше.\nВозвращайтесь через пару часов."),
            Reply::Welcome => String::from_str("Привет! Я робот. Могу помочь вам найти соседей."),
            Reply::NoPlace => String::from_str("Увы, не знаю, где вы живёте.\nЧтобы это исправить, вам нужно в чатик ЖК отправить сообщение вида #Xкорпус #Yэтаж. Например '#3корпус #11этаж'. Минут через пять после этого возвращайтесь и ещё раз нажмите /start."),
            Reply::OnePlace { building, floor } => {
                let mut s = String::from_str("Похоже, что вы живёте в ");
                append_decimal(&mut s, building);
                s.append("-м корпусе на ");
                append_decimal(&mut s, floor);
                s.append("-м этаже.");
                s
            },
            Reply::LandlordPlaces => String::from_str("Оу, я вижу вы занимаете сразу несколько этажей."),
            Reply::SeveralPlaces => String::from_str("Какая неожиданность. Похоже вы отправили несколько сообщений с указанием своего этажа. Теперь я не знаю как быть. Попробуйте написать в общий чатик."),
            Reply::NoNeighbors => String::from_str("Я не знаю ваших соседей, мне очень жаль. Попробуйте зайти ещё когда-нибудь и снова нажать /start."),
            Reply::NeighborsFound => String::from_str("У вас есть соседи. Сейчас перешлю их сообщения."),
            Reply::Failure => String::from_str("Что-то пошло не так. Попробуйте ещё раз /start через некоторое время.\n Или пожалуйтесь в общий чатик."),
        }
    }
}

/// What the conversation needs to know of the user who sent `/start`.
#[derive(Debug)]
pub struct FullUserInfo {
    pub id: i64,
    /// Private chat in which the user talks to the bot.
    pub chat_id: i64,
    pub status: UserStatus,
    /// Distinct locations that the user has claimed.
    pub places: Vec<Place>,
    /// Neighbours' posts to forward; looked up only when the conversation
    /// gets that far.
    pub neighbors: Vec<NeighborMessage>,
    pub is_landlord: bool,
}

/// The user may learn of neighbours: they are trusted and either have
/// exactly one location or are a landlord.
pub open spec fn may_see_neighbors(status: UserStatus, n_places: nat, landlord: bool) -> bool {
    status == UserStatus::KnownAndTrusted && (n_places == 1 || landlord)
}

/// Gathers what the conversation with `user_id`, in private chat `chat_id`,
/// needs, from the membership and location tables at time `now`, with
/// members trusted after `timeout` seconds.
pub fn get_full_user_info(
    users: &Vec<KnownUser>,
    posts: &Vec<ComingoutPost>,
    user_id: i64,
    chat_id: i64,
    now: i64,
    timeout: i64,
) -> (r: FullUserInfo)
    ensures
        r.id == user_id,
        r.chat_id == chat_id,
        r.status == status_of(users@, user_id, now, timeout),
        r.places@ == places_of(posts@, user_id),
        r.is_landlord == is_landlord_spec(users@, user_id),
        may_see_neighbors(r.status, r.places@.len(), r.is_landlord) ==> is_neighbor_list(
            users@,
            posts@,
            user_id,
            r.places@,
            r.neighbors@,
        ),
        !may_see_neighbors(r.status, r.places@.len(), r.is_landlord) ==> r.neighbors@.len() == 0,
{
    let status = classify(users, user_id, now, timeout);
    let places = locations(posts, user_id);
    let landlord = is_landlord(users, user_id);
    let found = if status == UserStatus::KnownAndTrusted && (places.len() == 1 || landlord) {
        neighbors(users, posts, user_id, &places)
    } else {
        Vec::new()
    };
    FullUserInfo { id: user_id, chat_id, status, places, neighbors: found, is_landlord: landlord }
}

/// A step of the conversation for the messaging service to carry out.
#[derive(Clone, Copy, Debug, PartialEq, Eq, Structural)]
pub enum Action {
    /// Send a text message to a chat.
    Send { chat_id: i64, reply: Reply },
    /// Forward message `msg_id` of chat `from_chat_id` to chat `chat_id`.
    Forward { chat_id: i64, from_chat_id: i64, msg_id: i64 },
    /// The conversation is over.
    Finish,
}

/// The greeting for each trust tier.
pub open spec fn greeting_reply(status: UserStatus) -> Reply {
    match status {
        UserStatus::Stranger => Reply::Stranger,
        UserStatus::KnownButUntrusted => Reply::NewMember,
        UserStatus::KnownAndTrusted => Reply::Welcome,
    }
}

/// The report of the user's locations.
pub open spec fn location_reply(places: Seq<Place>, landlord: bool) -> Reply {
    if places.len() == 0 {
        Reply::NoPlace
    } else if places.len() == 1 {
        Reply::OnePlace { building: places[0].building, floor: places[0].floor }
    } else if landlord {
        Reply::LandlordPlaces
    } else {
        Reply::SeveralPlaces
    }
}

/// The forward of a neighbour's post to chat `chat_id`.
pub open spec fn forward_of(chat_id: i64, m: NeighborMessage) -> Action {
    Action::Forward { chat_id, from_chat_id: m.chat_id, msg_id: m.msg_id }
}

/// The messages of the conversation when every one is delivered: the
/// greeting; for a trusted user the location report; when neighbours may be
/// shown, whether any are known; and then a forward of each, in order.
pub open spec fn greeting_plan(info: FullUserInfo) -> Seq<Action> {
    let chat_id = info.chat_id;
    let greet = seq![Action::Send { chat_id, reply: greeting_reply(info.status) }];
    let located = greet.push(
        Action::Send { chat_id, reply: location_reply(info.places@, info.is_landlord) },
    );
    if info.status != UserStatus::KnownAndTrusted {
        greet
    } else if info.places@.len() != 1 && !info.is_landlord {
        located
    } else if info.neighbors@.len() == 0 {
        located.push(Action::Send { chat_id, reply: Reply::NoNeighbors })
    } else {
        located.push(Action::Send { chat_id, reply: Reply::NeighborsFound }) + info.neighbors@.map_values(
            |m: NeighborMessage| forward_of(chat_id, m),
        )
    }
}

/// Lists the messages of the conversation with the user, in order.
pub fn plan_greeting(info: &FullUserInfo) -> (r: Vec<Action>)
    ensures
        r@ == greeting_plan(*info),
{
    let chat_id = info.chat_id;
    let greeting = match info.status {
        UserStatus::Stranger => Reply::Stranger,
        UserStatus::KnownButUntrusted => Reply::NewMember,
        UserStatus::KnownAndTrusted => Reply::Welcome,
    };
    let mut r: Vec<Action> = Vec::new();
    r.push(Action::Send { chat_id, reply: greeting });
    if info.status != UserStatus::KnownAndTrusted {
        return r;
    }
    let n = info.places.len();
    let report = if n == 0 {
        Reply::NoPlace
    } else if n == 1 {
        Reply::OnePlace { building: info.places[0].building, floor: info.places[0].floor }
    } else if info.is_landlord {
        Reply::LandlordPlaces
    } else {
        Reply::SeveralPlaces
    };
    r.push(Action::Send { chat_id, reply: report });
    if n != 1 && !info.is_landlord {
        return r;
    }
    if info.neighbors.len() == 0 {
        r.push(Action::Send { chat_id, reply: Reply::NoNeighbors });
        return r;
    }
    r.push(Action::Send { chat_id, reply: Reply::NeighborsFound });
    let ghost head = r@;
    let mut i: usize = 0;
    while i < info.neighbors.len()
        invariant
            i <= info.neighbors@.len(),
            r@ == head + info.neighbors@.subrange(0, i as int).map_values(
                |m: NeighborMessage| forward_of(chat_id, m),
            ),
        decreases info.neighbors@.len() - i,
    {
        let m = info.neighbors[i];
        r.push(Action::Forward { chat_id, from_chat_id: m.chat_id, msg_id: m.msg_id });
        proof {
            assert(info.neighbors@.subrange(0, i + 1).map_values(
                |m: NeighborMessage| forward_of(chat_id, m),
            ) =~= info.neighbors@.subrange(0, i as int).map_values(
                |m: NeighborMessage| forward_of(chat_id, m),
            ).push(forward_of(chat_id, m)));
        }
        i = i + 1;
    }
    proof {
        assert(info.neighbors@.subrange(0, info.neighbors@.len() as int) =~= info.neighbors@);
    }
    r
}

/// The conversation as a state machine: it hands out one step at a time and
/// is told when a step could not be carried out. Every step already carried
/// out stays done; a failure ends the conversation with an apology.
pub struct StartPipeline {
    /// Private chat of the user.
    pub chat_id: i64,
    /// The steps of the conversation when all goes well.
    pub actions: Vec<Action>,
    /// How many steps have been handed out.
    pub sent: usize,
    /// Whether a step failed.
    pub failed: bool,
}

impl StartPipeline {
    /// Starts the conversation with the user described by `info`.
    pub fn new(info: &FullUserInfo) -> (r: StartPipeline)
        ensures
            r.chat_id == info.chat_id,
            r.actions@ == greeting_plan(*info),
            r.sent == 0,
            !r.failed,
    {
        StartPipeline { chat_id: info.chat_id, actions: plan_greeting(info), sent: 0, failed: false }
    }

    /// The step to take once the previous one was carried out: the next
    /// planned one, or `Finish` when none is left or a step failed.
    pub fn next_action(&mut self) -> (a: Action)
        ensures
            !old(self).failed && old(self).sent < old(self).actions@.len() ==> {
                &&& a == old(self).actions@[old(self).sent as int]
                &&& *final(self) == (StartPipeline { sent: (old(self).sent + 1) as usize, ..*old(self) })
            },
            old(self).failed || old(self).sent >= old(self).actions@.len() ==> {
                &&& a == Action::Finish
                &&& *final(self) == *old(self)
            },
    {
        if self.failed || self.sent >= self.actions.len() {
            Action::Finish
        } else {
            let a = self.actions[self.sent];
            self.sent = self.sent + 1;
            a
        }
    }

    /// The step to take when the last one could not be carried out: an
    /// apology to the user the first time, and `Finish` after that.
    pub fn report_failure(&mut self) -> (a: Action)
        ensures
            !old(self).failed ==> {
                &&& a == (Action::Send { chat_id: old(self).chat_id, reply: Reply::Failure })
                &&& *final(self) == (StartPipeline { failed: true, ..*old(self) })
            },
            old(self).failed ==> {
                &&& a == Action::Finish
                &&& *final(self) == *old(self)
            },
    {
        if self.failed {
            Action::Finish
        } else {
            self.failed = true;
            Action::Send { chat_id: self.chat_id, reply: Reply::Failure }
        }
    }
}

} // verus!

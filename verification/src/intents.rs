//! The data model of a classified intent, as the intent engine reports it.
//! Classification itself is the engine's business; these types carry its
//! answer through the command layer.
use vstd::prelude::*;

verus! {

/// A fully parsed utterance: the raw input, the matched intent, and the
/// extracted slots.
#[derive(Default, Debug, Clone, PartialEq)]
pub struct ParsedIntent {
    pub input: String,
    pub intent: IntentMapper,
    pub slots: Vec<Slot>,
    pub alternatives: Vec<Value>,
}

/// The matched intent and the engine's confidence in it, in millionths
/// (1_000_000 is full confidence).
#[derive(Default, Debug, Clone, PartialEq)]
pub struct IntentMapper {
    pub intent_name: Option<Intent>,
    pub confidence_score: u32,
}

/// One extracted slot of the utterance.
#[derive(Default, Debug, Clone, PartialEq, Eq)]
pub struct Slot {
    pub raw_value: String,
    pub value: Value,
    pub alternatives: Vec<Value>,
    pub range: Range,
    pub entity: String,
    pub slot_name: String,
}

/// A typed slot value.
#[derive(Default, Debug, Clone, PartialEq, Eq)]
pub struct Value {
    pub kind: String,
    pub value: String,
}

/// The character span a slot was extracted from.
#[derive(Default, Debug, Clone, PartialEq, Eq)]
pub struct Range {
    pub start: i64,
    pub end: i64,
}

/// The intents the engine distinguishes.
#[derive(Debug, Clone, Copy, PartialEq, Eq, Structural)]
pub enum Intent {
    ListsCreateOrAdd,
    IotCleaning,
    IotWemoOff,
    IotHueLightdim,
    GeneralJoke,
    PlayMusic,
    EmailQuery,
    ListsQuery,
    GeneralCommandstop,
    AudioVolumeOther,
    WeatherQuery,
    DateTimeQuery,
    TransportTaxi,
    GeneralConfirm,
    GeneralPraise,
    AudioVolumeMute,
    IotHueLightoff,
    MusicLikeness,
    RecommendationLocations,
    CookingQuery,
    GeneralDontCare,
    AudioVolumeUp,
    PlayRadio,
    QADefinition,
    ListsRemove,
    CalendarRemove,
    AudioVolumeDown,
    QAFactoid,
    TransportTraffic,
    IotWemoOn,
    IotCoffee,
    MusicSettings,
    DatetimeConvert,
    SocialQuery,
    CalendarQuery,
    CookingRecipe,
    TransportTicket,
    IotHueLightOn,
    MusicDislikeness,
    GeneralRepeat,
    TransportQuery,
    MusicQuery,
    GeneralQuirky,
    QACurrency,
    IotHueLightChange,
    IotHueLightUp,
    EmailQueryContact,
    EmailAddContact,
    GeneralExplain,
    RecommendationEvents,
    AlarmSet,
    PlayGame,
    PlayPodcasts,
    TakeawayQuery,
    GeneralGreet,
    CalendarSet,
    AlarmQuery,
    QAMaths,
    TakeawayOrder,
    EmailSend,
    GeneralNegate,
    AlarmRemove,
    NewsQuery,
    RecommendationMovies,
    SocialPost,
    PlayAudiobook,
    GeneralAffirm,
    QAStock,
}

} // verus!

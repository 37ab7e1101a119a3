use vstd::prelude::*;
use crate::decode::Symbol;
use crate::text::same_text;

verus! {

/// The kind of work a contract asks for.
#[derive(Clone, Copy, Debug, PartialEq, Eq, Hash, Structural)]
pub enum ContractType {
    Procurement,
    Transport,
    Shuttle,
}

impl Symbol for ContractType {
    open spec fn wire_text(&self) -> Seq<char> {
        match self {
            ContractType::Procurement => "PROCUREMENT"@,
            ContractType::Transport => "TRANSPORT"@,
            ContractType::Shuttle => "SHUTTLE"@,
        }
    }

    open spec fn named(text: Seq<char>) -> Option<ContractType> {
        if text == "PROCUREMENT"@ {
            Some(ContractType::Procurement)
        } else if text == "TRANSPORT"@ {
            Some(ContractType::Transport)
        } else if text == "SHUTTLE"@ {
            Some(ContractType::Shuttle)
        } else {
            None
        }
    }

    open spec fn family() -> Seq<char> {
        "ContractType"@
    }

    fn encode(&self) -> (s: &'static str) {
        match self {
            ContractType::Procurement => "PROCUREMENT",
            ContractType::Transport => "TRANSPORT",
            ContractType::Shuttle => "SHUTTLE",
        }
    }

    fn variant(text: &str) -> (r: Option<ContractType>) {
        if same_text(text, "PROCUREMENT") {
            Some(ContractType::Procurement)
        } else if same_text(text, "TRANSPORT") {
            Some(ContractType::Transport)
        } else if same_text(text, "SHUTTLE") {
            Some(ContractType::Shuttle)
        } else {
            None
        }
    }

    fn family_name() -> (s: &'static str) {
        "ContractType"
    }

    proof fn lemma_decode_encode(v: ContractType) {
        reveal_strlit("PROCUREMENT");
        reveal_strlit("TRANSPORT");
        reveal_strlit("SHUTTLE");
        assert("PROCUREMENT"@.len() == 11);
        assert("TRANSPORT"@.len() == 9);
        assert("SHUTTLE"@.len() == 7);
    }

    proof fn lemma_encode_decode(text: Seq<char>) {
    }
}

/// A trait that describes a faction.
#[derive(Clone, Copy, Debug, PartialEq, Eq, Hash, Structural)]
pub enum FactionTraitSymbols {
    Bureaucratic,
    Secretive,
    Capitalistic,
    Industrious,
    Peaceful,
    Distrustful,
    Welcoming,
    Smugglers,
    Scavengers,
    Rebellious,
    Exiles,
    Pirates,
    Raiders,
    Clan,
    Guild,
    Dominion,
    Fringe,
    Forsaken,
    Isolated,
    Localized,
    Established,
    Notable,
    Dominant,
    Inescapable,
    Innovative,
    Bold,
    Visionary,
    Curious,
    Daring,
    Exploratory,
    Resourceful,
    Flexible,
    Cooperative,
    United,
    Strategic,
    Intelligent,
    ResearchFocused,
    Collaborative,
    Progressive,
    Militaristic,
    TechnologicallyAdvanced,
    Aggressive,
    Imperialistic,
    TreasureHunters,
    Dexterous,
    Unpredictable,
    Brutal,
    Fleeting,
    Adaptable,
    SelfSufficient,
    Defensive,
    Proud,
    Diverse,
    Independent,
    SelfInterested,
    Fragmented,
    Commercial,
    FreeMarkets,
    Entrepreneurial,
}

impl Symbol for FactionTraitSymbols {
    open spec fn wire_text(&self) -> Seq<char> {
        match self {
            FactionTraitSymbols::Bureaucratic => "BUREAUCRATIC"@,
            FactionTraitSymbols::Secretive => "SECRETIVE"@,
            FactionTraitSymbols::Capitalistic => "CAPITALISTIC"@,
            FactionTraitSymbols::Industrious => "INDUSTRIOUS"@,
            FactionTraitSymbols::Peaceful => "PEACEFUL"@,
            FactionTraitSymbols::Distrustful => "DISTRUSTFUL"@,
            FactionTraitSymbols::Welcoming => "WELCOMING"@,
            FactionTraitSymbols::Smugglers => "SMUGGLERS"@,
            FactionTraitSymbols::Scavengers => "SCAVENGERS"@,
            FactionTraitSymbols::Rebellious => "REBELLIOUS"@,
            FactionTraitSymbols::Exiles => "EXILES"@,
            FactionTraitSymbols::Pirates => "PIRATES"@,
            FactionTraitSymbols::Raiders => "RAIDERS"@,
            FactionTraitSymbols::Clan => "CLAN"@,
            FactionTraitSymbols::Guild => "GUILD"@,
            FactionTraitSymbols::Dominion => "DOMINION"@,
            FactionTraitSymbols::Fringe => "FRINGE"@,
            FactionTraitSymbols::Forsaken => "FORSAKEN"@,
            FactionTraitSymbols::Isolated => "ISOLATED"@,
            FactionTraitSymbols::Localized => "LOCALIZED"@,
            FactionTraitSymbols::Established => "ESTABLISHED"@,
            FactionTraitSymbols::Notable => "NOTABLE"@,
            FactionTraitSymbols::Dominant => "DOMINANT"@,
            FactionTraitSymbols::Inescapable => "INESCAPABLE"@,
            FactionTraitSymbols::Innovative => "INNOVATIVE"@,
            FactionTraitSymbols::Bold => "BOLD"@,
            FactionTraitSymbols::Visionary => "VISIONARY"@,
            FactionTraitSymbols::Curious => "CURIOUS"@,
            FactionTraitSymbols::Daring => "DARING"@,
            FactionTraitSymbols::Exploratory => "EXPLORATORY"@,
            FactionTraitSymbols::Resourceful => "RESOURCEFUL"@,
            FactionTraitSymbols::Flexible => "FLEXIBLE"@,
            FactionTraitSymbols::Cooperative => "COOPERATIVE"@,
            FactionTraitSymbols::United => "UNITED"@,
            FactionTraitSymbols::Strategic => "STRATEGIC"@,
            FactionTraitSymbols::Intelligent => "INTELLIGENT"@,
            FactionTraitSymbols::ResearchFocused => "RESEARCH_FOCUSED"@,
            FactionTraitSymbols::Collaborative => "COLLABORATIVE"@,
            FactionTraitSymbols::Progressive => "PROGRESSIVE"@,
            FactionTraitSymbols::Militaristic => "MILITARISTIC"@,
            FactionTraitSymbols::TechnologicallyAdvanced => "TECHNOLOGICALLY_ADVANCED"@,
            FactionTraitSymbols::Aggressive => "AGGRESSIVE"@,
            FactionTraitSymbols::Imperialistic => "IMPERIALISTIC"@,
            FactionTraitSymbols::TreasureHunters => "TREASURE_HUNTERS"@,
            FactionTraitSymbols::Dexterous => "DEXTEROUS"@,
            FactionTraitSymbols::Unpredictable => "UNPREDICTABLE"@,
            FactionTraitSymbols::Brutal => "BRUTAL"@,
            FactionTraitSymbols::Fleeting => "FLEETING"@,
            FactionTraitSymbols::Adaptable => "ADAPTABLE"@,
            FactionTraitSymbols::SelfSufficient => "SELF_SUFFICIENT"@,
            FactionTraitSymbols::Defensive => "DEFENSIVE"@,
            FactionTraitSymbols::Proud => "PROUD"@,
            FactionTraitSymbols::Diverse => "DIVERSE"@,
            FactionTraitSymbols::Independent => "INDEPENDENT"@,
            FactionTraitSymbols::SelfInterested => "SELF_INTERESTED"@,
            FactionTraitSymbols::Fragmented => "FRAGMENTED"@,
            FactionTraitSymbols::Commercial => "COMMERCIAL"@,
            FactionTraitSymbols::FreeMarkets => "FREE_MARKETS"@,
            FactionTraitSymbols::Entrepreneurial => "ENTREPRENEURIAL"@,
        }
    }

    open spec fn named(text: Seq<char>) -> Option<FactionTraitSymbols> {
        if text == "BUREAUCRATIC"@ {
            Some(FactionTraitSymbols::Bureaucratic)
        } else if text == "SECRETIVE"@ {
            Some(FactionTraitSymbols::Secretive)
        } else if text == "CAPITALISTIC"@ {
            Some(FactionTraitSymbols::Capitalistic)
        } else if text == "INDUSTRIOUS"@ {
            Some(FactionTraitSymbols::Industrious)
        } else if text == "PEACEFUL"@ {
            Some(FactionTraitSymbols::Peaceful)
        } else if text == "DISTRUSTFUL"@ {
            Some(FactionTraitSymbols::Distrustful)
        } else if text == "WELCOMING"@ {
            Some(FactionTraitSymbols::Welcoming)
        } else if text == "SMUGGLERS"@ {
            Some(FactionTraitSymbols::Smugglers)
        } else if text == "SCAVENGERS"@ {
            Some(FactionTraitSymbols::Scavengers)
        } else if text == "REBELLIOUS"@ {
            Some(FactionTraitSymbols::Rebellious)
        } else if text == "EXILES"@ {
            Some(FactionTraitSymbols::Exiles)
        } else if text == "PIRATES"@ {
            Some(FactionTraitSymbols::Pirates)
        } else if text == "RAIDERS"@ {
            Some(FactionTraitSymbols::Raiders)
        } else if text == "CLAN"@ {
            Some(FactionTraitSymbols::Clan)
        } else if text == "GUILD"@ {
            Some(FactionTraitSymbols::Guild)
        } else if text == "DOMINION"@ {
            Some(FactionTraitSymbols::Dominion)
        } else if text == "FRINGE"@ {
            Some(FactionTraitSymbols::Fringe)
        } else if text == "FORSAKEN"@ {
            Some(FactionTraitSymbols::Forsaken)
        } else if text == "ISOLATED"@ {
            Some(FactionTraitSymbols::Isolated)
        } else if text == "LOCALIZED"@ {
            Some(FactionTraitSymbols::Localized)
        } else if text == "ESTABLISHED"@ {
            Some(FactionTraitSymbols::Established)
        } else if text == "NOTABLE"@ {
            Some(FactionTraitSymbols::Notable)
        } else if text == "DOMINANT"@ {
            Some(FactionTraitSymbols::Dominant)
        } else if text == "INESCAPABLE"@ {
            Some(FactionTraitSymbols::Inescapable)
        } else if text == "INNOVATIVE"@ {
            Some(FactionTraitSymbols::Innovative)
        } else if text == "BOLD"@ {
            Some(FactionTraitSymbols::Bold)
        } else if text == "VISIONARY"@ {
            Some(FactionTraitSymbols::Visionary)
        } else if text == "CURIOUS"@ {
            Some(FactionTraitSymbols::Curious)
        } else if text == "DARING"@ {
            Some(FactionTraitSymbols::Daring)
        } else if text == "EXPLORATORY"@ {
            Some(FactionTraitSymbols::Exploratory)
        } else if text == "RESOURCEFUL"@ {
            Some(FactionTraitSymbols::Resourceful)
        } else if text == "FLEXIBLE"@ {
            Some(FactionTraitSymbols::Flexible)
        } else if text == "COOPERATIVE"@ {
            Some(FactionTraitSymbols::Cooperative)
        } else if text == "UNITED"@ {
            Some(FactionTraitSymbols::United)
        } else if text == "STRATEGIC"@ {
            Some(FactionTraitSymbols::Strategic)
        } else if text == "INTELLIGENT"@ {
            Some(FactionTraitSymbols::Intelligent)
        } else if text == "RESEARCH_FOCUSED"@ {
            Some(FactionTraitSymbols::ResearchFocused)
        } else if text == "COLLABORATIVE"@ {
            Some(FactionTraitSymbols::Collaborative)
        } else if text == "PROGRESSIVE"@ {
            Some(FactionTraitSymbols::Progressive)
        } else if text == "MILITARISTIC"@ {
            Some(FactionTraitSymbols::Militaristic)
        } else if text == "TECHNOLOGICALLY_ADVANCED"@ {
            Some(FactionTraitSymbols::TechnologicallyAdvanced)
        } else if text == "AGGRESSIVE"@ {
            Some(FactionTraitSymbols::Aggressive)
        } else if text == "IMPERIALISTIC"@ {
            Some(FactionTraitSymbols::Imperialistic)
        } else if text == "TREASURE_HUNTERS"@ {
            Some(FactionTraitSymbols::TreasureHunters)
        } else if text == "DEXTEROUS"@ {
            Some(FactionTraitSymbols::Dexterous)
        } else if text == "UNPREDICTABLE"@ {
            Some(FactionTraitSymbols::Unpredictable)
        } else if text == "BRUTAL"@ {
            Some(FactionTraitSymbols::Brutal)
        } else if text == "FLEETING"@ {
            Some(FactionTraitSymbols::Fleeting)
        } else if text == "ADAPTABLE"@ {
            Some(FactionTraitSymbols::Adaptable)
        } else if text == "SELF_SUFFICIENT"@ {
            Some(FactionTraitSymbols::SelfSufficient)
        } else if text == "DEFENSIVE"@ {
            Some(FactionTraitSymbols::Defensive)
        } else if text == "PROUD"@ {
            Some(FactionTraitSymbols::Proud)
        } else if text == "DIVERSE"@ {
            Some(FactionTraitSymbols::Diverse)
        } else if text == "INDEPENDENT"@ {
            Some(FactionTraitSymbols::Independent)
        } else if text == "SELF_INTERESTED"@ {
            Some(FactionTraitSymbols::SelfInterested)
        } else if text == "FRAGMENTED"@ {
            Some(FactionTraitSymbols::Fragmented)
        } else if text == "COMMERCIAL"@ {
            Some(FactionTraitSymbols::Commercial)
        } else if text == "FREE_MARKETS"@ {
            Some(FactionTraitSymbols::FreeMarkets)
        } else if text == "ENTREPRENEURIAL"@ {
            Some(FactionTraitSymbols::Entrepreneurial)
        } else {
            None
        }
    }

    open spec fn family() -> Seq<char> {
        "FactionTraitSymbols"@
    }

    fn encode(&self) -> (s: &'static str) {
        match self {
            FactionTraitSymbols::Bureaucratic => "BUREAUCRATIC",
            FactionTraitSymbols::Secretive => "SECRETIVE",
            FactionTraitSymbols::Capitalistic => "CAPITALISTIC",
            FactionTraitSymbols::Industrious => "INDUSTRIOUS",
            FactionTraitSymbols::Peaceful => "PEACEFUL",
            FactionTraitSymbols::Distrustful => "DISTRUSTFUL",
            FactionTraitSymbols::Welcoming => "WELCOMING",
            FactionTraitSymbols::Smugglers => "SMUGGLERS",
            FactionTraitSymbols::Scavengers => "SCAVENGERS",
            FactionTraitSymbols::Rebellious => "REBELLIOUS",
            FactionTraitSymbols::Exiles => "EXILES",
            FactionTraitSymbols::Pirates => "PIRATES",
            FactionTraitSymbols::Raiders => "RAIDERS",
            FactionTraitSymbols::Clan => "CLAN",
            FactionTraitSymbols::Guild => "GUILD",
            FactionTraitSymbols::Dominion => "DOMINION",
            FactionTraitSymbols::Fringe => "FRINGE",
            FactionTraitSymbols::Forsaken => "FORSAKEN",
            FactionTraitSymbols::Isolated => "ISOLATED",
            FactionTraitSymbols::Localized => "LOCALIZED",
            FactionTraitSymbols::Established => "ESTABLISHED",
            FactionTraitSymbols::Notable => "NOTABLE",
            FactionTraitSymbols::Dominant => "DOMINANT",
            FactionTraitSymbols::Inescapable => "INESCAPABLE",
            FactionTraitSymbols::Innovative => "INNOVATIVE",
            FactionTraitSymbols::Bold => "BOLD",
            FactionTraitSymbols::Visionary => "VISIONARY",
            FactionTraitSymbols::Curious => "CURIOUS",
            FactionTraitSymbols::Daring => "DARING",
            FactionTraitSymbols::Exploratory => "EXPLORATORY",
            FactionTraitSymbols::Resourceful => "RESOURCEFUL",
            FactionTraitSymbols::Flexible => "FLEXIBLE",
            FactionTraitSymbols::Cooperative => "COOPERATIVE",
            FactionTraitSymbols::United => "UNITED",
            FactionTraitSymbols::Strategic => "STRATEGIC",
            FactionTraitSymbols::Intelligent => "INTELLIGENT",
            FactionTraitSymbols::ResearchFocused => "RESEARCH_FOCUSED",
            FactionTraitSymbols::Collaborative => "COLLABORATIVE",
            FactionTraitSymbols::Progressive => "PROGRESSIVE",
            FactionTraitSymbols::Militaristic => "MILITARISTIC",
            FactionTraitSymbols::TechnologicallyAdvanced => "TECHNOLOGICALLY_ADVANCED",
            FactionTraitSymbols::Aggressive => "AGGRESSIVE",
            FactionTraitSymbols::Imperialistic => "IMPERIALISTIC",
            FactionTraitSymbols::TreasureHunters => "TREASURE_HUNTERS",
            FactionTraitSymbols::Dexterous => "DEXTEROUS",
            FactionTraitSymbols::Unpredictable => "UNPREDICTABLE",
            FactionTraitSymbols::Brutal => "BRUTAL",
            FactionTraitSymbols::Fleeting => "FLEETING",
            FactionTraitSymbols::Adaptable => "ADAPTABLE",
            FactionTraitSymbols::SelfSufficient => "SELF_SUFFICIENT",
            FactionTraitSymbols::Defensive => "DEFENSIVE",
            FactionTraitSymbols::Proud => "PROUD",
            FactionTraitSymbols::Diverse => "DIVERSE",
            FactionTraitSymbols::Independent => "INDEPENDENT",
            FactionTraitSymbols::SelfInterested => "SELF_INTERESTED",
            FactionTraitSymbols::Fragmented => "FRAGMENTED",
            FactionTraitSymbols::Commercial => "COMMERCIAL",
            FactionTraitSymbols::FreeMarkets => "FREE_MARKETS",
            FactionTraitSymbols::Entrepreneurial => "ENTREPRENEURIAL",
        }
    }

    fn variant(text: &str) -> (r: Option<FactionTraitSymbols>) {
        if same_text(text, "BUREAUCRATIC") {
            Some(FactionTraitSymbols::Bureaucratic)
        } else if same_text(text, "SECRETIVE") {
            Some(FactionTraitSymbols::Secretive)
        } else if same_text(text, "CAPITALISTIC") {
            Some(FactionTraitSymbols::Capitalistic)
        } else if same_text(text, "INDUSTRIOUS") {
            Some(FactionTraitSymbols::Industrious)
        } else if same_text(text, "PEACEFUL") {
            Some(FactionTraitSymbols::Peaceful)
        } else if same_text(text, "DISTRUSTFUL") {
            Some(FactionTraitSymbols::Distrustful)
        } else if same_text(text, "WELCOMING") {
            Some(FactionTraitSymbols::Welcoming)
        } else if same_text(text, "SMUGGLERS") {
            Some(FactionTraitSymbols::Smugglers)
        } else if same_text(text, "SCAVENGERS") {
            Some(FactionTraitSymbols::Scavengers)
        } else if same_text(text, "REBELLIOUS") {
            Some(FactionTraitSymbols::Rebellious)
        } else if same_text(text, "EXILES") {
            Some(FactionTraitSymbols::Exiles)
        } else if same_text(text, "PIRATES") {
            Some(FactionTraitSymbols::Pirates)
        } else if same_text(text, "RAIDERS") {
            Some(FactionTraitSymbols::Raiders)
        } else if same_text(text, "CLAN") {
            Some(FactionTraitSymbols::Clan)
        } else if same_text(text, "GUILD") {
            Some(FactionTraitSymbols::Guild)
        } else if same_text(text, "DOMINION") {
            Some(FactionTraitSymbols::Dominion)
        } else if same_text(text, "FRINGE") {
            Some(FactionTraitSymbols::Fringe)
        } else if same_text(text, "FORSAKEN") {
            Some(FactionTraitSymbols::Forsaken)
        } else if same_text(text, "ISOLATED") {
            Some(FactionTraitSymbols::Isolated)
        } else if same_text(text, "LOCALIZED") {
            Some(FactionTraitSymbols::Localized)
        } else if same_text(text, "ESTABLISHED") {
            Some(FactionTraitSymbols::Established)
        } else if same_text(text, "NOTABLE") {
            Some(FactionTraitSymbols::Notable)
        } else if same_text(text, "DOMINANT") {
            Some(FactionTraitSymbols::Dominant)
        } else if same_text(text, "INESCAPABLE") {
            Some(FactionTraitSymbols::Inescapable)
        } else if same_text(text, "INNOVATIVE") {
            Some(FactionTraitSymbols::Innovative)
        } else if same_text(text, "BOLD") {
            Some(FactionTraitSymbols::Bold)
        } else if same_text(text, "VISIONARY") {
            Some(FactionTraitSymbols::Visionary)
        } else if same_text(text, "CURIOUS") {
            Some(FactionTraitSymbols::Curious)
        } else if same_text(text, "DARING") {
            Some(FactionTraitSymbols::Daring)
        } else if same_text(text, "EXPLORATORY") {
            Some(FactionTraitSymbols::Exploratory)
        } else if same_text(text, "RESOURCEFUL") {
            Some(FactionTraitSymbols::Resourceful)
        } else if same_text(text, "FLEXIBLE") {
            Some(FactionTraitSymbols::Flexible)
        } else if same_text(text, "COOPERATIVE") {
            Some(FactionTraitSymbols::Cooperative)
        } else if same_text(text, "UNITED") {
            Some(FactionTraitSymbols::United)
        } else if same_text(text, "STRATEGIC") {
            Some(FactionTraitSymbols::Strategic)
        } else if same_text(text, "INTELLIGENT") {
            Some(FactionTraitSymbols::Intelligent)
        } else if same_text(text, "RESEARCH_FOCUSED") {
            Some(FactionTraitSymbols::ResearchFocused)
        } else if same_text(text, "COLLABORATIVE") {
            Some(FactionTraitSymbols::Collaborative)
        } else if same_text(text, "PROGRESSIVE") {
            Some(FactionTraitSymbols::Progressive)
        } else if same_text(text, "MILITARISTIC") {
            Some(FactionTraitSymbols::Militaristic)
        } else if same_text(text, "TECHNOLOGICALLY_ADVANCED") {
            Some(FactionTraitSymbols::TechnologicallyAdvanced)
        } else if same_text(text, "AGGRESSIVE") {
            Some(FactionTraitSymbols::Aggressive)
        } else if same_text(text, "IMPERIALISTIC") {
            Some(FactionTraitSymbols::Imperialistic)
        } else if same_text(text, "TREASURE_HUNTERS") {
            Some(FactionTraitSymbols::TreasureHunters)
        } else if same_text(text, "DEXTEROUS") {
            Some(FactionTraitSymbols::Dexterous)
        } else if same_text(text, "UNPREDICTABLE") {
            Some(FactionTraitSymbols::Unpredictable)
        } else if same_text(text, "BRUTAL") {
            Some(FactionTraitSymbols::Brutal)
        } else if same_text(text, "FLEETING") {
            Some(FactionTraitSymbols::Fleeting)
        } else if same_text(text, "ADAPTABLE") {
            Some(FactionTraitSymbols::Adaptable)
        } else if same_text(text, "SELF_SUFFICIENT") {
            Some(FactionTraitSymbols::SelfSufficient)
        } else if same_text(text, "DEFENSIVE") {
            Some(FactionTraitSymbols::Defensive)
        } else if same_text(text, "PROUD") {
            Some(FactionTraitSymbols::Proud)
        } else if same_text(text, "DIVERSE") {
            Some(FactionTraitSymbols::Diverse)
        } else if same_text(text, "INDEPENDENT") {
            Some(FactionTraitSymbols::Independent)
        } else if same_text(text, "SELF_INTERESTED") {
            Some(FactionTraitSymbols::SelfInterested)
        } else if same_text(text, "FRAGMENTED") {
            Some(FactionTraitSymbols::Fragmented)
        } else if same_text(text, "COMMERCIAL") {
            Some(FactionTraitSymbols::Commercial)
        } else if same_text(text, "FREE_MARKETS") {
            Some(FactionTraitSymbols::FreeMarkets)
        } else if same_text(text, "ENTREPRENEURIAL") {
            Some(FactionTraitSymbols::Entrepreneurial)
        } else {
            None
        }
    }

    fn family_name() -> (s: &'static str) {
        "FactionTraitSymbols"
    }

    proof fn lemma_decode_encode(v: FactionTraitSymbols) {
        reveal_strlit("BUREAUCRATIC");
        reveal_strlit("SECRETIVE");
        reveal_strlit("CAPITALISTIC");
        reveal_strlit("INDUSTRIOUS");
        reveal_strlit("PEACEFUL");
        reveal_strlit("DISTRUSTFUL");
        reveal_strlit("WELCOMING");
        reveal_strlit("SMUGGLERS");
        reveal_strlit("SCAVENGERS");
        reveal_strlit("REBELLIOUS");
        reveal_strlit("EXILES");
        reveal_strlit("PIRATES");
        reveal_strlit("RAIDERS");
        reveal_strlit("CLAN");
        reveal_strlit("GUILD");
        reveal_strlit("DOMINION");
        reveal_strlit("FRINGE");
        reveal_strlit("FORSAKEN");
        reveal_strlit("ISOLATED");
        reveal_strlit("LOCALIZED");
        reveal_strlit("ESTABLISHED");
        reveal_strlit("NOTABLE");
        reveal_strlit("DOMINANT");
        reveal_strlit("INESCAPABLE");
        reveal_strlit("INNOVATIVE");
        reveal_strlit("BOLD");
        reveal_strlit("VISIONARY");
        reveal_strlit("CURIOUS");
        reveal_strlit("DARING");
        reveal_strlit("EXPLORATORY");
        reveal_strlit("RESOURCEFUL");
        reveal_strlit("FLEXIBLE");
        reveal_strlit("COOPERATIVE");
        reveal_strlit("UNITED");
        reveal_strlit("STRATEGIC");
        reveal_strlit("INTELLIGENT");
        reveal_strlit("RESEARCH_FOCUSED");
        reveal_strlit("COLLABORATIVE");
        reveal_strlit("PROGRESSIVE");
        reveal_strlit("MILITARISTIC");
        reveal_strlit("TECHNOLOGICALLY_ADVANCED");
        reveal_strlit("AGGRESSIVE");
        reveal_strlit("IMPERIALISTIC");
        reveal_strlit("TREASURE_HUNTERS");
        reveal_strlit("DEXTEROUS");
        reveal_strlit("UNPREDICTABLE");
        reveal_strlit("BRUTAL");
        reveal_strlit("FLEETING");
        reveal_strlit("ADAPTABLE");
        reveal_strlit("SELF_SUFFICIENT");
        reveal_strlit("DEFENSIVE");
        reveal_strlit("PROUD");
        reveal_strlit("DIVERSE");
        reveal_strlit("INDEPENDENT");
        reveal_strlit("SELF_INTERESTED");
        reveal_strlit("FRAGMENTED");
        reveal_strlit("COMMERCIAL");
        reveal_strlit("FREE_MARKETS");
        reveal_strlit("ENTREPRENEURIAL");
        assert("BUREAUCRATIC"@.len() == 12 && "BUREAUCRATIC"@[0] == 'B');
        assert("SECRETIVE"@.len() == 9 && "SECRETIVE"@[0] == 'S' && "SECRETIVE"@[1] == 'E');
        assert("CAPITALISTIC"@.len() == 12 && "CAPITALISTIC"@[0] == 'C');
        assert("INDUSTRIOUS"@.len() == 11 && "INDUSTRIOUS"@[0] == 'I' && "INDUSTRIOUS"@[2] == 'D' && "INDUSTRIOUS"@[3] == 'U');
        assert("PEACEFUL"@.len() == 8 && "PEACEFUL"@[0] == 'P');
        assert("DISTRUSTFUL"@.len() == 11 && "DISTRUSTFUL"@[0] == 'D');
        assert("WELCOMING"@.len() == 9 && "WELCOMING"@[0] == 'W');
        assert("SMUGGLERS"@.len() == 9 && "SMUGGLERS"@[0] == 'S' && "SMUGGLERS"@[1] == 'M');
        assert("SCAVENGERS"@.len() == 10 && "SCAVENGERS"@[0] == 'S');
        assert("REBELLIOUS"@.len() == 10 && "REBELLIOUS"@[0] == 'R');
        assert("EXILES"@.len() == 6 && "EXILES"@[0] == 'E');
        assert("PIRATES"@.len() == 7 && "PIRATES"@[0] == 'P');
        assert("RAIDERS"@.len() == 7 && "RAIDERS"@[0] == 'R');
        assert("CLAN"@.len() == 4 && "CLAN"@[0] == 'C');
        assert("GUILD"@.len() == 5 && "GUILD"@[0] == 'G');
        assert("DOMINION"@.len() == 8 && "DOMINION"@[0] == 'D' && "DOMINION"@[5] == 'I');
        assert("FRINGE"@.len() == 6 && "FRINGE"@[0] == 'F');
        assert("FORSAKEN"@.len() == 8 && "FORSAKEN"@[0] == 'F' && "FORSAKEN"@[1] == 'O');
        assert("ISOLATED"@.len() == 8 && "ISOLATED"@[0] == 'I');
        assert("LOCALIZED"@.len() == 9 && "LOCALIZED"@[0] == 'L');
        assert("ESTABLISHED"@.len() == 11 && "ESTABLISHED"@[0] == 'E' && "ESTABLISHED"@[1] == 'S');
        assert("NOTABLE"@.len() == 7 && "NOTABLE"@[0] == 'N');
        assert("DOMINANT"@.len() == 8 && "DOMINANT"@[0] == 'D' && "DOMINANT"@[5] == 'A');
        assert("INESCAPABLE"@.len() == 11 && "INESCAPABLE"@[0] == 'I' && "INESCAPABLE"@[2] == 'E');
        assert("INNOVATIVE"@.len() == 10 && "INNOVATIVE"@[0] == 'I');
        assert("BOLD"@.len() == 4 && "BOLD"@[0] == 'B');
        assert("VISIONARY"@.len() == 9 && "VISIONARY"@[0] == 'V');
        assert("CURIOUS"@.len() == 7 && "CURIOUS"@[0] == 'C');
        assert("DARING"@.len() == 6 && "DARING"@[0] == 'D');
        assert("EXPLORATORY"@.len() == 11 && "EXPLORATORY"@[0] == 'E' && "EXPLORATORY"@[1] == 'X');
        assert("RESOURCEFUL"@.len() == 11 && "RESOURCEFUL"@[0] == 'R');
        assert("FLEXIBLE"@.len() == 8 && "FLEXIBLE"@[0] == 'F' && "FLEXIBLE"@[1] == 'L' && "FLEXIBLE"@[3] == 'X');
        assert("COOPERATIVE"@.len() == 11 && "COOPERATIVE"@[0] == 'C');
        assert("UNITED"@.len() == 6 && "UNITED"@[0] == 'U');
        assert("STRATEGIC"@.len() == 9 && "STRATEGIC"@[0] == 'S' && "STRATEGIC"@[1] == 'T');
        assert("INTELLIGENT"@.len() == 11 && "INTELLIGENT"@[0] == 'I' && "INTELLIGENT"@[2] == 'T');
        assert("RESEARCH_FOCUSED"@.len() == 16 && "RESEARCH_FOCUSED"@[0] == 'R');
        assert("COLLABORATIVE"@.len() == 13 && "COLLABORATIVE"@[0] == 'C');
        assert("PROGRESSIVE"@.len() == 11 && "PROGRESSIVE"@[0] == 'P');
        assert("MILITARISTIC"@.len() == 12 && "MILITARISTIC"@[0] == 'M');
        assert("TECHNOLOGICALLY_ADVANCED"@.len() == 24);
        assert("AGGRESSIVE"@.len() == 10 && "AGGRESSIVE"@[0] == 'A');
        assert("IMPERIALISTIC"@.len() == 13 && "IMPERIALISTIC"@[0] == 'I');
        assert("TREASURE_HUNTERS"@.len() == 16 && "TREASURE_HUNTERS"@[0] == 'T');
        assert("DEXTEROUS"@.len() == 9 && "DEXTEROUS"@[0] == 'D' && "DEXTEROUS"@[2] == 'X');
        assert("UNPREDICTABLE"@.len() == 13 && "UNPREDICTABLE"@[0] == 'U');
        assert("BRUTAL"@.len() == 6 && "BRUTAL"@[0] == 'B');
        assert("FLEETING"@.len() == 8 && "FLEETING"@[0] == 'F' && "FLEETING"@[1] == 'L' && "FLEETING"@[3] == 'E');
        assert("ADAPTABLE"@.len() == 9 && "ADAPTABLE"@[0] == 'A');
        assert("SELF_SUFFICIENT"@.len() == 15 && "SELF_SUFFICIENT"@[0] == 'S' && "SELF_SUFFICIENT"@[5] == 'S');
        assert("DEFENSIVE"@.len() == 9 && "DEFENSIVE"@[0] == 'D' && "DEFENSIVE"@[2] == 'F');
        assert("PROUD"@.len() == 5 && "PROUD"@[0] == 'P');
        assert("DIVERSE"@.len() == 7 && "DIVERSE"@[0] == 'D');
        assert("INDEPENDENT"@.len() == 11 && "INDEPENDENT"@[0] == 'I' && "INDEPENDENT"@[2] == 'D' && "INDEPENDENT"@[3] == 'E');
        assert("SELF_INTERESTED"@.len() == 15 && "SELF_INTERESTED"@[0] == 'S' && "SELF_INTERESTED"@[5] == 'I');
        assert("FRAGMENTED"@.len() == 10 && "FRAGMENTED"@[0] == 'F');
        assert("COMMERCIAL"@.len() == 10 && "COMMERCIAL"@[0] == 'C');
        assert("FREE_MARKETS"@.len() == 12 && "FREE_MARKETS"@[0] == 'F');
        assert("ENTREPRENEURIAL"@.len() == 15 && "ENTREPRENEURIAL"@[0] == 'E');
    }

    proof fn lemma_encode_decode(text: Seq<char>) {
    }
}

/// Which way a market transaction went.
#[derive(Clone, Copy, Debug, PartialEq, Eq, Hash, Structural)]
pub enum MarketTransactionTypes {
    Purchase,
    Sell,
}

impl Symbol for MarketTransactionTypes {
    open spec fn wire_text(&self) -> Seq<char> {
        match self {
            MarketTransactionTypes::Purchase => "PURCHASE"@,
            MarketTransactionTypes::Sell => "SELL"@,
        }
    }

    open spec fn named(text: Seq<char>) -> Option<MarketTransactionTypes> {
        if text == "PURCHASE"@ {
            Some(MarketTransactionTypes::Purchase)
        } else if text == "SELL"@ {
            Some(MarketTransactionTypes::Sell)
        } else {
            None
        }
    }

    open spec fn family() -> Seq<char> {
        "MarketTransactionTypes"@
    }

    fn encode(&self) -> (s: &'static str) {
        match self {
            MarketTransactionTypes::Purchase => "PURCHASE",
            MarketTransactionTypes::Sell => "SELL",
        }
    }

    fn variant(text: &str) -> (r: Option<MarketTransactionTypes>) {
        if same_text(text, "PURCHASE") {
            Some(MarketTransactionTypes::Purchase)
        } else if same_text(text, "SELL") {
            Some(MarketTransactionTypes::Sell)
        } else {
            None
        }
    }

    fn family_name() -> (s: &'static str) {
        "MarketTransactionTypes"
    }

    proof fn lemma_decode_encode(v: MarketTransactionTypes) {
        reveal_strlit("PURCHASE");
        reveal_strlit("SELL");
        assert("PURCHASE"@.len() == 8);
        assert("SELL"@.len() == 4);
    }

    proof fn lemma_encode_decode(text: Seq<char>) {
    }
}

/// How a ship rotates its crew.
#[derive(Clone, Copy, Debug, PartialEq, Eq, Hash, Structural)]
pub enum ShipCrewRotation {
    Strict,
    Relaxed,
}

impl Symbol for ShipCrewRotation {
    open spec fn wire_text(&self) -> Seq<char> {
        match self {
            ShipCrewRotation::Strict => "STRICT"@,
            ShipCrewRotation::Relaxed => "RELAXED"@,
        }
    }

    open spec fn named(text: Seq<char>) -> Option<ShipCrewRotation> {
        if text == "STRICT"@ {
            Some(ShipCrewRotation::Strict)
        } else if text == "RELAXED"@ {
            Some(ShipCrewRotation::Relaxed)
        } else {
            None
        }
    }

    open spec fn family() -> Seq<char> {
        "ShipCrewRotation"@
    }

    fn encode(&self) -> (s: &'static str) {
        match self {
            ShipCrewRotation::Strict => "STRICT",
            ShipCrewRotation::Relaxed => "RELAXED",
        }
    }

    fn variant(text: &str) -> (r: Option<ShipCrewRotation>) {
        if same_text(text, "STRICT") {
            Some(ShipCrewRotation::Strict)
        } else if same_text(text, "RELAXED") {
            Some(ShipCrewRotation::Relaxed)
        } else {
            None
        }
    }

    fn family_name() -> (s: &'static str) {
        "ShipCrewRotation"
    }

    proof fn lemma_decode_encode(v: ShipCrewRotation) {
        reveal_strlit("STRICT");
        reveal_strlit("RELAXED");
        assert("STRICT"@.len() == 6);
        assert("RELAXED"@.len() == 7);
    }

    proof fn lemma_encode_decode(text: Seq<char>) {
    }
}

/// The model of a ship engine.
#[derive(Clone, Copy, Debug, PartialEq, Eq, Hash, Structural)]
pub enum ShipEngineSymbols {
    EngineImpulseDriveI,
    EngineIonDriveI,
    EngineIonDriveIi,
    EngineHyperDriveI,
}

impl Symbol for ShipEngineSymbols {
    open spec fn wire_text(&self) -> Seq<char> {
        match self {
            ShipEngineSymbols::EngineImpulseDriveI => "ENGINE_IMPULSE_DRIVE_I"@,
            ShipEngineSymbols::EngineIonDriveI => "ENGINE_ION_DRIVE_I"@,
            ShipEngineSymbols::EngineIonDriveIi => "ENGINE_ION_DRIVE_II"@,
            ShipEngineSymbols::EngineHyperDriveI => "ENGINE_HYPER_DRIVE_I"@,
        }
    }

    open spec fn named(text: Seq<char>) -> Option<ShipEngineSymbols> {
        if text == "ENGINE_IMPULSE_DRIVE_I"@ {
            Some(ShipEngineSymbols::EngineImpulseDriveI)
        } else if text == "ENGINE_ION_DRIVE_I"@ {
            Some(ShipEngineSymbols::EngineIonDriveI)
        } else if text == "ENGINE_ION_DRIVE_II"@ {
            Some(ShipEngineSymbols::EngineIonDriveIi)
        } else if text == "ENGINE_HYPER_DRIVE_I"@ {
            Some(ShipEngineSymbols::EngineHyperDriveI)
        } else {
            None
        }
    }

    open spec fn family() -> Seq<char> {
        "ShipEngineSymbols"@
    }

    fn encode(&self) -> (s: &'static str) {
        match self {
            ShipEngineSymbols::EngineImpulseDriveI => "ENGINE_IMPULSE_DRIVE_I",
            ShipEngineSymbols::EngineIonDriveI => "ENGINE_ION_DRIVE_I",
            ShipEngineSymbols::EngineIonDriveIi => "ENGINE_ION_DRIVE_II",
            ShipEngineSymbols::EngineHyperDriveI => "ENGINE_HYPER_DRIVE_I",
        }
    }

    fn variant(text: &str) -> (r: Option<ShipEngineSymbols>) {
        if same_text(text, "ENGINE_IMPULSE_DRIVE_I") {
            Some(ShipEngineSymbols::EngineImpulseDriveI)
        } else if same_text(text, "ENGINE_ION_DRIVE_I") {
            Some(ShipEngineSymbols::EngineIonDriveI)
        } else if same_text(text, "ENGINE_ION_DRIVE_II") {
            Some(ShipEngineSymbols::EngineIonDriveIi)
        } else if same_text(text, "ENGINE_HYPER_DRIVE_I") {
            Some(ShipEngineSymbols::EngineHyperDriveI)
        } else {
            None
        }
    }

    fn family_name() -> (s: &'static str) {
        "ShipEngineSymbols"
    }

    proof fn lemma_decode_encode(v: ShipEngineSymbols) {
        reveal_strlit("ENGINE_IMPULSE_DRIVE_I");
        reveal_strlit("ENGINE_ION_DRIVE_I");
        reveal_strlit("ENGINE_ION_DRIVE_II");
        reveal_strlit("ENGINE_HYPER_DRIVE_I");
        assert("ENGINE_IMPULSE_DRIVE_I"@.len() == 22);
        assert("ENGINE_ION_DRIVE_I"@.len() == 18);
        assert("ENGINE_ION_DRIVE_II"@.len() == 19);
        assert("ENGINE_HYPER_DRIVE_I"@.len() == 20);
    }

    proof fn lemma_encode_decode(text: Seq<char>) {
    }
}

/// The model of a ship frame.
#[derive(Clone, Copy, Debug, PartialEq, Eq, Hash, Structural)]
pub enum ShipFrameSymbols {
    FrameProbe,
    FrameDrone,
    FrameInterceptor,
    FrameRacer,
    FrameFighter,
    FrameFrigate,
    FrameShuttle,
    FrameExplorer,
    FrameMiner,
    FrameLightFreighter,
    FrameHeavyFreighter,
    FrameTransport,
    FrameDestroyer,
    FrameCruiser,
    FrameCarrier,
}

impl Symbol for ShipFrameSymbols {
    open spec fn wire_text(&self) -> Seq<char> {
        match self {
            ShipFrameSymbols::FrameProbe => "FRAME_PROBE"@,
            ShipFrameSymbols::FrameDrone => "FRAME_DRONE"@,
            ShipFrameSymbols::FrameInterceptor => "FRAME_INTERCEPTOR"@,
            ShipFrameSymbols::FrameRacer => "FRAME_RACER"@,
            ShipFrameSymbols::FrameFighter => "FRAME_FIGHTER"@,
            ShipFrameSymbols::FrameFrigate => "FRAME_FRIGATE"@,
            ShipFrameSymbols::FrameShuttle => "FRAME_SHUTTLE"@,
            ShipFrameSymbols::FrameExplorer => "FRAME_EXPLORER"@,
            ShipFrameSymbols::FrameMiner => "FRAME_MINER"@,
            ShipFrameSymbols::FrameLightFreighter => "FRAME_LIGHT_FREIGHTER"@,
            ShipFrameSymbols::FrameHeavyFreighter => "FRAME_HEAVY_FREIGHTER"@,
            ShipFrameSymbols::FrameTransport => "FRAME_TRANSPORT"@,
            ShipFrameSymbols::FrameDestroyer => "FRAME_DESTROYER"@,
            ShipFrameSymbols::FrameCruiser => "FRAME_CRUISER"@,
            ShipFrameSymbols::FrameCarrier => "FRAME_CARRIER"@,
        }
    }

    open spec fn named(text: Seq<char>) -> Option<ShipFrameSymbols> {
        if text == "FRAME_PROBE"@ {
            Some(ShipFrameSymbols::FrameProbe)
        } else if text == "FRAME_DRONE"@ {
            Some(ShipFrameSymbols::FrameDrone)
        } else if text == "FRAME_INTERCEPTOR"@ {
            Some(ShipFrameSymbols::FrameInterceptor)
        } else if text == "FRAME_RACER"@ {
            Some(ShipFrameSymbols::FrameRacer)
        } else if text == "FRAME_FIGHTER"@ {
            Some(ShipFrameSymbols::FrameFighter)
        } else if text == "FRAME_FRIGATE"@ {
            Some(ShipFrameSymbols::FrameFrigate)
        } else if text == "FRAME_SHUTTLE"@ {
            Some(ShipFrameSymbols::FrameShuttle)
        } else if text == "FRAME_EXPLORER"@ {
            Some(ShipFrameSymbols::FrameExplorer)
        } else if text == "FRAME_MINER"@ {
            Some(ShipFrameSymbols::FrameMiner)
        } else if text == "FRAME_LIGHT_FREIGHTER"@ {
            Some(ShipFrameSymbols::FrameLightFreighter)
        } else if text == "FRAME_HEAVY_FREIGHTER"@ {
            Some(ShipFrameSymbols::FrameHeavyFreighter)
        } else if text == "FRAME_TRANSPORT"@ {
            Some(ShipFrameSymbols::FrameTransport)
        } else if text == "FRAME_DESTROYER"@ {
            Some(ShipFrameSymbols::FrameDestroyer)
        } else if text == "FRAME_CRUISER"@ {
            Some(ShipFrameSymbols::FrameCruiser)
        } else if text == "FRAME_CARRIER"@ {
            Some(ShipFrameSymbols::FrameCarrier)
        } else {
            None
        }
    }

    open spec fn family() -> Seq<char> {
        "ShipFrameSymbols"@
    }

    fn encode(&self) -> (s: &'static str) {
        match self {
            ShipFrameSymbols::FrameProbe => "FRAME_PROBE",
            ShipFrameSymbols::FrameDrone => "FRAME_DRONE",
            ShipFrameSymbols::FrameInterceptor => "FRAME_INTERCEPTOR",
            ShipFrameSymbols::FrameRacer => "FRAME_RACER",
            ShipFrameSymbols::FrameFighter => "FRAME_FIGHTER",
            ShipFrameSymbols::FrameFrigate => "FRAME_FRIGATE",
            ShipFrameSymbols::FrameShuttle => "FRAME_SHUTTLE",
            ShipFrameSymbols::FrameExplorer => "FRAME_EXPLORER",
            ShipFrameSymbols::FrameMiner => "FRAME_MINER",
            ShipFrameSymbols::FrameLightFreighter => "FRAME_LIGHT_FREIGHTER",
            ShipFrameSymbols::FrameHeavyFreighter => "FRAME_HEAVY_FREIGHTER",
            ShipFrameSymbols::FrameTransport => "FRAME_TRANSPORT",
            ShipFrameSymbols::FrameDestroyer => "FRAME_DESTROYER",
            ShipFrameSymbols::FrameCruiser => "FRAME_CRUISER",
            ShipFrameSymbols::FrameCarrier => "FRAME_CARRIER",
        }
    }

    fn variant(text: &str) -> (r: Option<ShipFrameSymbols>) {
        if same_text(text, "FRAME_PROBE") {
            Some(ShipFrameSymbols::FrameProbe)
        } else if same_text(text, "FRAME_DRONE") {
            Some(ShipFrameSymbols::FrameDrone)
        } else if same_text(text, "FRAME_INTERCEPTOR") {
            Some(ShipFrameSymbols::FrameInterceptor)
        } else if same_text(text, "FRAME_RACER") {
            Some(ShipFrameSymbols::FrameRacer)
        } else if same_text(text, "FRAME_FIGHTER") {
            Some(ShipFrameSymbols::FrameFighter)
        } else if same_text(text, "FRAME_FRIGATE") {
            Some(ShipFrameSymbols::FrameFrigate)
        } else if same_text(text, "FRAME_SHUTTLE") {
            Some(ShipFrameSymbols::FrameShuttle)
        } else if same_text(text, "FRAME_EXPLORER") {
            Some(ShipFrameSymbols::FrameExplorer)
        } else if same_text(text, "FRAME_MINER") {
            Some(ShipFrameSymbols::FrameMiner)
        } else if same_text(text, "FRAME_LIGHT_FREIGHTER") {
            Some(ShipFrameSymbols::FrameLightFreighter)
        } else if same_text(text, "FRAME_HEAVY_FREIGHTER") {
            Some(ShipFrameSymbols::FrameHeavyFreighter)
        } else if same_text(text, "FRAME_TRANSPORT") {
            Some(ShipFrameSymbols::FrameTransport)
        } else if same_text(text, "FRAME_DESTROYER") {
            Some(ShipFrameSymbols::FrameDestroyer)
        } else if same_text(text, "FRAME_CRUISER") {
            Some(ShipFrameSymbols::FrameCruiser)
        } else if same_text(text, "FRAME_CARRIER") {
            Some(ShipFrameSymbols::FrameCarrier)
        } else {
            None
        }
    }

    fn family_name() -> (s: &'static str) {
        "ShipFrameSymbols"
    }

    proof fn lemma_decode_encode(v: ShipFrameSymbols) {
        reveal_strlit("FRAME_PROBE");
        reveal_strlit("FRAME_DRONE");
        reveal_strlit("FRAME_INTERCEPTOR");
        reveal_strlit("FRAME_RACER");
        reveal_strlit("FRAME_FIGHTER");
        reveal_strlit("FRAME_FRIGATE");
        reveal_strlit("FRAME_SHUTTLE");
        reveal_strlit("FRAME_EXPLORER");
        reveal_strlit("FRAME_MINER");
        reveal_strlit("FRAME_LIGHT_FREIGHTER");
        reveal_strlit("FRAME_HEAVY_FREIGHTER");
        reveal_strlit("FRAME_TRANSPORT");
        reveal_strlit("FRAME_DESTROYER");
        reveal_strlit("FRAME_CRUISER");
        reveal_strlit("FRAME_CARRIER");
        assert("FRAME_PROBE"@.len() == 11 && "FRAME_PROBE"@[6] == 'P');
        assert("FRAME_DRONE"@.len() == 11 && "FRAME_DRONE"@[6] == 'D');
        assert("FRAME_INTERCEPTOR"@.len() == 17);
        assert("FRAME_RACER"@.len() == 11 && "FRAME_RACER"@[6] == 'R');
        assert("FRAME_FIGHTER"@.len() == 13 && "FRAME_FIGHTER"@[6] == 'F' && "FRAME_FIGHTER"@[7] == 'I');
        assert("FRAME_FRIGATE"@.len() == 13 && "FRAME_FRIGATE"@[6] == 'F' && "FRAME_FRIGATE"@[7] == 'R');
        assert("FRAME_SHUTTLE"@.len() == 13 && "FRAME_SHUTTLE"@[6] == 'S');
        assert("FRAME_EXPLORER"@.len() == 14);
        assert("FRAME_MINER"@.len() == 11 && "FRAME_MINER"@[6] == 'M');
        assert("FRAME_LIGHT_FREIGHTER"@.len() == 21 && "FRAME_LIGHT_FREIGHTER"@[6] == 'L');
        assert("FRAME_HEAVY_FREIGHTER"@.len() == 21 && "FRAME_HEAVY_FREIGHTER"@[6] == 'H');
        assert("FRAME_TRANSPORT"@.len() == 15 && "FRAME_TRANSPORT"@[6] == 'T');
        assert("FRAME_DESTROYER"@.len() == 15 && "FRAME_DESTROYER"@[6] == 'D');
        assert("FRAME_CRUISER"@.len() == 13 && "FRAME_CRUISER"@[6] == 'C' && "FRAME_CRUISER"@[7] == 'R');
        assert("FRAME_CARRIER"@.len() == 13 && "FRAME_CARRIER"@[6] == 'C' && "FRAME_CARRIER"@[7] == 'A');
    }

    proof fn lemma_encode_decode(text: Seq<char>) {
    }
}

/// The model of a ship module.
#[derive(Clone, Copy, Debug, PartialEq, Eq, Hash, Structural)]
pub enum ShipModuleSymbols {
    ModuleMineralProcessorI,
    ModuleCargoHoldI,
    ModuleCrewQuartersI,
    ModuleEnvoyQuartersI,
    ModulePassengerCabinI,
    ModuleMicroRefineryI,
    ModuleOreRefineryI,
    ModuleFuelRefineryI,
    ModuleScienceLabI,
    ModuleJumpDriveI,
    ModuleJumpDriveIi,
    ModuleJumpDriveIii,
    ModuleWarpDriveI,
    ModuleWarpDriveIi,
    ModuleWarpDriveIii,
    ModuleShieldGeneratorI,
    ModuleShieldGeneratorIi,
}

impl Symbol for ShipModuleSymbols {
    open spec fn wire_text(&self) -> Seq<char> {
        match self {
            ShipModuleSymbols::ModuleMineralProcessorI => "MODULE_MINERAL_PROCESSOR_I"@,
            ShipModuleSymbols::ModuleCargoHoldI => "MODULE_CARGO_HOLD_I"@,
            ShipModuleSymbols::ModuleCrewQuartersI => "MODULE_CREW_QUARTERS_I"@,
            ShipModuleSymbols::ModuleEnvoyQuartersI => "MODULE_ENVOY_QUARTERS_I"@,
            ShipModuleSymbols::ModulePassengerCabinI => "MODULE_PASSENGER_CABIN_I"@,
            ShipModuleSymbols::ModuleMicroRefineryI => "MODULE_MICRO_REFINERY_I"@,
            ShipModuleSymbols::ModuleOreRefineryI => "MODULE_ORE_REFINERY_I"@,
            ShipModuleSymbols::ModuleFuelRefineryI => "MODULE_FUEL_REFINERY_I"@,
            ShipModuleSymbols::ModuleScienceLabI => "MODULE_SCIENCE_LAB_I"@,
            ShipModuleSymbols::ModuleJumpDriveI => "MODULE_JUMP_DRIVE_I"@,
            ShipModuleSymbols::ModuleJumpDriveIi => "MODULE_JUMP_DRIVE_II"@,
            ShipModuleSymbols::ModuleJumpDriveIii => "MODULE_JUMP_DRIVE_III"@,
            ShipModuleSymbols::ModuleWarpDriveI => "MODULE_WARP_DRIVE_I"@,
            ShipModuleSymbols::ModuleWarpDriveIi => "MODULE_WARP_DRIVE_II"@,
            ShipModuleSymbols::ModuleWarpDriveIii => "MODULE_WARP_DRIVE_III"@,
            ShipModuleSymbols::ModuleShieldGeneratorI => "MODULE_SHIELD_GENERATOR_I"@,
            ShipModuleSymbols::ModuleShieldGeneratorIi => "MODULE_SHIELD_GENERATOR_II"@,
        }
    }

    open spec fn named(text: Seq<char>) -> Option<ShipModuleSymbols> {
        if text == "MODULE_MINERAL_PROCESSOR_I"@ {
            Some(ShipModuleSymbols::ModuleMineralProcessorI)
        } else if text == "MODULE_CARGO_HOLD_I"@ {
            Some(ShipModuleSymbols::ModuleCargoHoldI)
        } else if text == "MODULE_CREW_QUARTERS_I"@ {
            Some(ShipModuleSymbols::ModuleCrewQuartersI)
        } else if text == "MODULE_ENVOY_QUARTERS_I"@ {
            Some(ShipModuleSymbols::ModuleEnvoyQuartersI)
        } else if text == "MODULE_PASSENGER_CABIN_I"@ {
            Some(ShipModuleSymbols::ModulePassengerCabinI)
        } else if text == "MODULE_MICRO_REFINERY_I"@ {
            Some(ShipModuleSymbols::ModuleMicroRefineryI)
        } else if text == "MODULE_ORE_REFINERY_I"@ {
            Some(ShipModuleSymbols::ModuleOreRefineryI)
        } else if text == "MODULE_FUEL_REFINERY_I"@ {
            Some(ShipModuleSymbols::ModuleFuelRefineryI)
        } else if text == "MODULE_SCIENCE_LAB_I"@ {
            Some(ShipModuleSymbols::ModuleScienceLabI)
        } else if text == "MODULE_JUMP_DRIVE_I"@ {
            Some(ShipModuleSymbols::ModuleJumpDriveI)
        } else if text == "MODULE_JUMP_DRIVE_II"@ {
            Some(ShipModuleSymbols::ModuleJumpDriveIi)
        } else if text == "MODULE_JUMP_DRIVE_III"@ {
            Some(ShipModuleSymbols::ModuleJumpDriveIii)
        } else if text == "MODULE_WARP_DRIVE_I"@ {
            Some(ShipModuleSymbols::ModuleWarpDriveI)
        } else if text == "MODULE_WARP_DRIVE_II"@ {
            Some(ShipModuleSymbols::ModuleWarpDriveIi)
        } else if text == "MODULE_WARP_DRIVE_III"@ {
            Some(ShipModuleSymbols::ModuleWarpDriveIii)
        } else if text == "MODULE_SHIELD_GENERATOR_I"@ {
            Some(ShipModuleSymbols::ModuleShieldGeneratorI)
        } else if text == "MODULE_SHIELD_GENERATOR_II"@ {
            Some(ShipModuleSymbols::ModuleShieldGeneratorIi)
        } else {
            None
        }
    }

    open spec fn family() -> Seq<char> {
        "ShipModuleSymbols"@
    }

    fn encode(&self) -> (s: &'static str) {
        match self {
            ShipModuleSymbols::ModuleMineralProcessorI => "MODULE_MINERAL_PROCESSOR_I",
            ShipModuleSymbols::ModuleCargoHoldI => "MODULE_CARGO_HOLD_I",
            ShipModuleSymbols::ModuleCrewQuartersI => "MODULE_CREW_QUARTERS_I",
            ShipModuleSymbols::ModuleEnvoyQuartersI => "MODULE_ENVOY_QUARTERS_I",
            ShipModuleSymbols::ModulePassengerCabinI => "MODULE_PASSENGER_CABIN_I",
            ShipModuleSymbols::ModuleMicroRefineryI => "MODULE_MICRO_REFINERY_I",
            ShipModuleSymbols::ModuleOreRefineryI => "MODULE_ORE_REFINERY_I",
            ShipModuleSymbols::ModuleFuelRefineryI => "MODULE_FUEL_REFINERY_I",
            ShipModuleSymbols::ModuleScienceLabI => "MODULE_SCIENCE_LAB_I",
            ShipModuleSymbols::ModuleJumpDriveI => "MODULE_JUMP_DRIVE_I",
            ShipModuleSymbols::ModuleJumpDriveIi => "MODULE_JUMP_DRIVE_II",
            ShipModuleSymbols::ModuleJumpDriveIii => "MODULE_JUMP_DRIVE_III",
            ShipModuleSymbols::ModuleWarpDriveI => "MODULE_WARP_DRIVE_I",
            ShipModuleSymbols::ModuleWarpDriveIi => "MODULE_WARP_DRIVE_II",
            ShipModuleSymbols::ModuleWarpDriveIii => "MODULE_WARP_DRIVE_III",
            ShipModuleSymbols::ModuleShieldGeneratorI => "MODULE_SHIELD_GENERATOR_I",
            ShipModuleSymbols::ModuleShieldGeneratorIi => "MODULE_SHIELD_GENERATOR_II",
        }
    }

    fn variant(text: &str) -> (r: Option<ShipModuleSymbols>) {
        if same_text(text, "MODULE_MINERAL_PROCESSOR_I") {
            Some(ShipModuleSymbols::ModuleMineralProcessorI)
        } else if same_text(text, "MODULE_CARGO_HOLD_I") {
            Some(ShipModuleSymbols::ModuleCargoHoldI)
        } else if same_text(text, "MODULE_CREW_QUARTERS_I") {
            Some(ShipModuleSymbols::ModuleCrewQuartersI)
        } else if same_text(text, "MODULE_ENVOY_QUARTERS_I") {
            Some(ShipModuleSymbols::ModuleEnvoyQuartersI)
        } else if same_text(text, "MODULE_PASSENGER_CABIN_I") {
            Some(ShipModuleSymbols::ModulePassengerCabinI)
        } else if same_text(text, "MODULE_MICRO_REFINERY_I") {
            Some(ShipModuleSymbols::ModuleMicroRefineryI)
        } else if same_text(text, "MODULE_ORE_REFINERY_I") {
            Some(ShipModuleSymbols::ModuleOreRefineryI)
        } else if same_text(text, "MODULE_FUEL_REFINERY_I") {
            Some(ShipModuleSymbols::ModuleFuelRefineryI)
        } else if same_text(text, "MODULE_SCIENCE_LAB_I") {
            Some(ShipModuleSymbols::ModuleScienceLabI)
        } else if same_text(text, "MODULE_JUMP_DRIVE_I") {
            Some(ShipModuleSymbols::ModuleJumpDriveI)
        } else if same_text(text, "MODULE_JUMP_DRIVE_II") {
            Some(ShipModuleSymbols::ModuleJumpDriveIi)
        } else if same_text(text, "MODULE_JUMP_DRIVE_III") {
            Some(ShipModuleSymbols::ModuleJumpDriveIii)
        } else if same_text(text, "MODULE_WARP_DRIVE_I") {
            Some(ShipModuleSymbols::ModuleWarpDriveI)
        } else if same_text(text, "MODULE_WARP_DRIVE_II") {
            Some(ShipModuleSymbols::ModuleWarpDriveIi)
        } else if same_text(text, "MODULE_WARP_DRIVE_III") {
            Some(ShipModuleSymbols::ModuleWarpDriveIii)
        } else if same_text(text, "MODULE_SHIELD_GENERATOR_I") {
            Some(ShipModuleSymbols::ModuleShieldGeneratorI)
        } else if same_text(text, "MODULE_SHIELD_GENERATOR_II") {
            Some(ShipModuleSymbols::ModuleShieldGeneratorIi)
        } else {
            None
        }
    }

    fn family_name() -> (s: &'static str) {
        "ShipModuleSymbols"
    }

    proof fn lemma_decode_encode(v: ShipModuleSymbols) {
        reveal_strlit("MODULE_MINERAL_PROCESSOR_I");
        reveal_strlit("MODULE_CARGO_HOLD_I");
        reveal_strlit("MODULE_CREW_QUARTERS_I");
        reveal_strlit("MODULE_ENVOY_QUARTERS_I");
        reveal_strlit("MODULE_PASSENGER_CABIN_I");
        reveal_strlit("MODULE_MICRO_REFINERY_I");
        reveal_strlit("MODULE_ORE_REFINERY_I");
        reveal_strlit("MODULE_FUEL_REFINERY_I");
        reveal_strlit("MODULE_SCIENCE_LAB_I");
        reveal_strlit("MODULE_JUMP_DRIVE_I");
        reveal_strlit("MODULE_JUMP_DRIVE_II");
        reveal_strlit("MODULE_JUMP_DRIVE_III");
        reveal_strlit("MODULE_WARP_DRIVE_I");
        reveal_strlit("MODULE_WARP_DRIVE_II");
        reveal_strlit("MODULE_WARP_DRIVE_III");
        reveal_strlit("MODULE_SHIELD_GENERATOR_I");
        reveal_strlit("MODULE_SHIELD_GENERATOR_II");
        assert("MODULE_MINERAL_PROCESSOR_I"@.len() == 26 && "MODULE_MINERAL_PROCESSOR_I"@[7] == 'M');
        assert("MODULE_CARGO_HOLD_I"@.len() == 19 && "MODULE_CARGO_HOLD_I"@[7] == 'C');
        assert("MODULE_CREW_QUARTERS_I"@.len() == 22 && "MODULE_CREW_QUARTERS_I"@[7] == 'C');
        assert("MODULE_ENVOY_QUARTERS_I"@.len() == 23 && "MODULE_ENVOY_QUARTERS_I"@[7] == 'E');
        assert("MODULE_PASSENGER_CABIN_I"@.len() == 24);
        assert("MODULE_MICRO_REFINERY_I"@.len() == 23 && "MODULE_MICRO_REFINERY_I"@[7] == 'M');
        assert("MODULE_ORE_REFINERY_I"@.len() == 21 && "MODULE_ORE_REFINERY_I"@[7] == 'O');
        assert("MODULE_FUEL_REFINERY_I"@.len() == 22 && "MODULE_FUEL_REFINERY_I"@[7] == 'F');
        assert("MODULE_SCIENCE_LAB_I"@.len() == 20 && "MODULE_SCIENCE_LAB_I"@[7] == 'S');
        assert("MODULE_JUMP_DRIVE_I"@.len() == 19 && "MODULE_JUMP_DRIVE_I"@[7] == 'J');
        assert("MODULE_JUMP_DRIVE_II"@.len() == 20 && "MODULE_JUMP_DRIVE_II"@[7] == 'J');
        assert("MODULE_JUMP_DRIVE_III"@.len() == 21 && "MODULE_JUMP_DRIVE_III"@[7] == 'J');
        assert("MODULE_WARP_DRIVE_I"@.len() == 19 && "MODULE_WARP_DRIVE_I"@[7] == 'W');
        assert("MODULE_WARP_DRIVE_II"@.len() == 20 && "MODULE_WARP_DRIVE_II"@[7] == 'W');
        assert("MODULE_WARP_DRIVE_III"@.len() == 21 && "MODULE_WARP_DRIVE_III"@[7] == 'W');
        assert("MODULE_SHIELD_GENERATOR_I"@.len() == 25);
        assert("MODULE_SHIELD_GENERATOR_II"@.len() == 26 && "MODULE_SHIELD_GENERATOR_II"@[7] == 'S');
    }

    proof fn lemma_encode_decode(text: Seq<char>) {
    }
}

/// The model of a ship mount.
#[derive(Clone, Copy, Debug, PartialEq, Eq, Hash, Structural)]
pub enum ShipMountSymbols {
    MountGasSiphonI,
    MountGasSiphonIi,
    MountGasSiphonIii,
    MountSurveyorI,
    MountSurveyorIi,
    MountSurveyorIii,
    MountSensorArrayI,
    MountSensorArrayIi,
    MountSensorArrayIii,
    MountMiningLaserI,
    MountMiningLaserIi,
    MountMiningLaserIii,
    MountLaserCannonI,
    MountMissileLauncherI,
    MountTurretI,
}

impl Symbol for ShipMountSymbols {
    open spec fn wire_text(&self) -> Seq<char> {
        match self {
            ShipMountSymbols::MountGasSiphonI => "MOUNT_GAS_SIPHON_I"@,
            ShipMountSymbols::MountGasSiphonIi => "MOUNT_GAS_SIPHON_II"@,
            ShipMountSymbols::MountGasSiphonIii => "MOUNT_GAS_SIPHON_III"@,
            ShipMountSymbols::MountSurveyorI => "MOUNT_SURVEYOR_I"@,
            ShipMountSymbols::MountSurveyorIi => "MOUNT_SURVEYOR_II"@,
            ShipMountSymbols::MountSurveyorIii => "MOUNT_SURVEYOR_III"@,
            ShipMountSymbols::MountSensorArrayI => "MOUNT_SENSOR_ARRAY_I"@,
            ShipMountSymbols::MountSensorArrayIi => "MOUNT_SENSOR_ARRAY_II"@,
            ShipMountSymbols::MountSensorArrayIii => "MOUNT_SENSOR_ARRAY_III"@,
            ShipMountSymbols::MountMiningLaserI => "MOUNT_MINING_LASER_I"@,
            ShipMountSymbols::MountMiningLaserIi => "MOUNT_MINING_LASER_II"@,
            ShipMountSymbols::MountMiningLaserIii => "MOUNT_MINING_LASER_III"@,
            ShipMountSymbols::MountLaserCannonI => "MOUNT_LASER_CANNON_I"@,
            ShipMountSymbols::MountMissileLauncherI => "MOUNT_MISSILE_LAUNCHER_I"@,
            ShipMountSymbols::MountTurretI => "MOUNT_TURRET_I"@,
        }
    }

    open spec fn named(text: Seq<char>) -> Option<ShipMountSymbols> {
        if text == "MOUNT_GAS_SIPHON_I"@ {
            Some(ShipMountSymbols::MountGasSiphonI)
        } else if text == "MOUNT_GAS_SIPHON_II"@ {
            Some(ShipMountSymbols::MountGasSiphonIi)
        } else if text == "MOUNT_GAS_SIPHON_III"@ {
            Some(ShipMountSymbols::MountGasSiphonIii)
        } else if text == "MOUNT_SURVEYOR_I"@ {
            Some(ShipMountSymbols::MountSurveyorI)
        } else if text == "MOUNT_SURVEYOR_II"@ {
            Some(ShipMountSymbols::MountSurveyorIi)
        } else if text == "MOUNT_SURVEYOR_III"@ {
            Some(ShipMountSymbols::MountSurveyorIii)
        } else if text == "MOUNT_SENSOR_ARRAY_I"@ {
            Some(ShipMountSymbols::MountSensorArrayI)
        } else if text == "MOUNT_SENSOR_ARRAY_II"@ {
            Some(ShipMountSymbols::MountSensorArrayIi)
        } else if text == "MOUNT_SENSOR_ARRAY_III"@ {
            Some(ShipMountSymbols::MountSensorArrayIii)
        } else if text == "MOUNT_MINING_LASER_I"@ {
            Some(ShipMountSymbols::MountMiningLaserI)
        } else if text == "MOUNT_MINING_LASER_II"@ {
            Some(ShipMountSymbols::MountMiningLaserIi)
        } else if text == "MOUNT_MINING_LASER_III"@ {
            Some(ShipMountSymbols::MountMiningLaserIii)
        } else if text == "MOUNT_LASER_CANNON_I"@ {
            Some(ShipMountSymbols::MountLaserCannonI)
        } else if text == "MOUNT_MISSILE_LAUNCHER_I"@ {
            Some(ShipMountSymbols::MountMissileLauncherI)
        } else if text == "MOUNT_TURRET_I"@ {
            Some(ShipMountSymbols::MountTurretI)
        } else {
            None
        }
    }

    open spec fn family() -> Seq<char> {
        "ShipMountSymbols"@
    }

    fn encode(&self) -> (s: &'static str) {
        match self {
            ShipMountSymbols::MountGasSiphonI => "MOUNT_GAS_SIPHON_I",
            ShipMountSymbols::MountGasSiphonIi => "MOUNT_GAS_SIPHON_II",
            ShipMountSymbols::MountGasSiphonIii => "MOUNT_GAS_SIPHON_III",
            ShipMountSymbols::MountSurveyorI => "MOUNT_SURVEYOR_I",
            ShipMountSymbols::MountSurveyorIi => "MOUNT_SURVEYOR_II",
            ShipMountSymbols::MountSurveyorIii => "MOUNT_SURVEYOR_III",
            ShipMountSymbols::MountSensorArrayI => "MOUNT_SENSOR_ARRAY_I",
            ShipMountSymbols::MountSensorArrayIi => "MOUNT_SENSOR_ARRAY_II",
            ShipMountSymbols::MountSensorArrayIii => "MOUNT_SENSOR_ARRAY_III",
            ShipMountSymbols::MountMiningLaserI => "MOUNT_MINING_LASER_I",
            ShipMountSymbols::MountMiningLaserIi => "MOUNT_MINING_LASER_II",
            ShipMountSymbols::MountMiningLaserIii => "MOUNT_MINING_LASER_III",
            ShipMountSymbols::MountLaserCannonI => "MOUNT_LASER_CANNON_I",
            ShipMountSymbols::MountMissileLauncherI => "MOUNT_MISSILE_LAUNCHER_I",
            ShipMountSymbols::MountTurretI => "MOUNT_TURRET_I",
        }
    }

    fn variant(text: &str) -> (r: Option<ShipMountSymbols>) {
        if same_text(text, "MOUNT_GAS_SIPHON_I") {
            Some(ShipMountSymbols::MountGasSiphonI)
        } else if same_text(text, "MOUNT_GAS_SIPHON_II") {
            Some(ShipMountSymbols::MountGasSiphonIi)
        } else if same_text(text, "MOUNT_GAS_SIPHON_III") {
            Some(ShipMountSymbols::MountGasSiphonIii)
        } else if same_text(text, "MOUNT_SURVEYOR_I") {
            Some(ShipMountSymbols::MountSurveyorI)
        } else if same_text(text, "MOUNT_SURVEYOR_II") {
            Some(ShipMountSymbols::MountSurveyorIi)
        } else if same_text(text, "MOUNT_SURVEYOR_III") {
            Some(ShipMountSymbols::MountSurveyorIii)
        } else if same_text(text, "MOUNT_SENSOR_ARRAY_I") {
            Some(ShipMountSymbols::MountSensorArrayI)
        } else if same_text(text, "MOUNT_SENSOR_ARRAY_II") {
            Some(ShipMountSymbols::MountSensorArrayIi)
        } else if same_text(text, "MOUNT_SENSOR_ARRAY_III") {
            Some(ShipMountSymbols::MountSensorArrayIii)
        } else if same_text(text, "MOUNT_MINING_LASER_I") {
            Some(ShipMountSymbols::MountMiningLaserI)
        } else if same_text(text, "MOUNT_MINING_LASER_II") {
            Some(ShipMountSymbols::MountMiningLaserIi)
        } else if same_text(text, "MOUNT_MINING_LASER_III") {
            Some(ShipMountSymbols::MountMiningLaserIii)
        } else if same_text(text, "MOUNT_LASER_CANNON_I") {
            Some(ShipMountSymbols::MountLaserCannonI)
        } else if same_text(text, "MOUNT_MISSILE_LAUNCHER_I") {
            Some(ShipMountSymbols::MountMissileLauncherI)
        } else if same_text(text, "MOUNT_TURRET_I") {
            Some(ShipMountSymbols::MountTurretI)
        } else {
            None
        }
    }

    fn family_name() -> (s: &'static str) {
        "ShipMountSymbols"
    }

    proof fn lemma_decode_encode(v: ShipMountSymbols) {
        reveal_strlit("MOUNT_GAS_SIPHON_I");
        reveal_strlit("MOUNT_GAS_SIPHON_II");
        reveal_strlit("MOUNT_GAS_SIPHON_III");
        reveal_strlit("MOUNT_SURVEYOR_I");
        reveal_strlit("MOUNT_SURVEYOR_II");
        reveal_strlit("MOUNT_SURVEYOR_III");
        reveal_strlit("MOUNT_SENSOR_ARRAY_I");
        reveal_strlit("MOUNT_SENSOR_ARRAY_II");
        reveal_strlit("MOUNT_SENSOR_ARRAY_III");
        reveal_strlit("MOUNT_MINING_LASER_I");
        reveal_strlit("MOUNT_MINING_LASER_II");
        reveal_strlit("MOUNT_MINING_LASER_III");
        reveal_strlit("MOUNT_LASER_CANNON_I");
        reveal_strlit("MOUNT_MISSILE_LAUNCHER_I");
        reveal_strlit("MOUNT_TURRET_I");
        assert("MOUNT_GAS_SIPHON_I"@.len() == 18 && "MOUNT_GAS_SIPHON_I"@[6] == 'G');
        assert("MOUNT_GAS_SIPHON_II"@.len() == 19);
        assert("MOUNT_GAS_SIPHON_III"@.len() == 20 && "MOUNT_GAS_SIPHON_III"@[6] == 'G');
        assert("MOUNT_SURVEYOR_I"@.len() == 16);
        assert("MOUNT_SURVEYOR_II"@.len() == 17);
        assert("MOUNT_SURVEYOR_III"@.len() == 18 && "MOUNT_SURVEYOR_III"@[6] == 'S');
        assert("MOUNT_SENSOR_ARRAY_I"@.len() == 20 && "MOUNT_SENSOR_ARRAY_I"@[6] == 'S');
        assert("MOUNT_SENSOR_ARRAY_II"@.len() == 21 && "MOUNT_SENSOR_ARRAY_II"@[6] == 'S');
        assert("MOUNT_SENSOR_ARRAY_III"@.len() == 22 && "MOUNT_SENSOR_ARRAY_III"@[6] == 'S');
        assert("MOUNT_MINING_LASER_I"@.len() == 20 && "MOUNT_MINING_LASER_I"@[6] == 'M');
        assert("MOUNT_MINING_LASER_II"@.len() == 21 && "MOUNT_MINING_LASER_II"@[6] == 'M');
        assert("MOUNT_MINING_LASER_III"@.len() == 22 && "MOUNT_MINING_LASER_III"@[6] == 'M');
        assert("MOUNT_LASER_CANNON_I"@.len() == 20 && "MOUNT_LASER_CANNON_I"@[6] == 'L');
        assert("MOUNT_MISSILE_LAUNCHER_I"@.len() == 24);
        assert("MOUNT_TURRET_I"@.len() == 14);
    }

    proof fn lemma_encode_decode(text: Seq<char>) {
    }
}

/// How a ship flies between waypoints.
#[derive(Clone, Copy, Debug, PartialEq, Eq, Hash, Structural)]
pub enum ShipNavFlightMode {
    Drift,
    Stealth,
    Cruise,
    Burn,
}

impl Symbol for ShipNavFlightMode {
    open spec fn wire_text(&self) -> Seq<char> {
        match self {
            ShipNavFlightMode::Drift => "DRIFT"@,
            ShipNavFlightMode::Stealth => "STEALTH"@,
            ShipNavFlightMode::Cruise => "CRUISE"@,
            ShipNavFlightMode::Burn => "BURN"@,
        }
    }

    open spec fn named(text: Seq<char>) -> Option<ShipNavFlightMode> {
        if text == "DRIFT"@ {
            Some(ShipNavFlightMode::Drift)
        } else if text == "STEALTH"@ {
            Some(ShipNavFlightMode::Stealth)
        } else if text == "CRUISE"@ {
            Some(ShipNavFlightMode::Cruise)
        } else if text == "BURN"@ {
            Some(ShipNavFlightMode::Burn)
        } else {
            None
        }
    }

    open spec fn family() -> Seq<char> {
        "ShipNavFlightMode"@
    }

    fn encode(&self) -> (s: &'static str) {
        match self {
            ShipNavFlightMode::Drift => "DRIFT",
            ShipNavFlightMode::Stealth => "STEALTH",
            ShipNavFlightMode::Cruise => "CRUISE",
            ShipNavFlightMode::Burn => "BURN",
        }
    }

    fn variant(text: &str) -> (r: Option<ShipNavFlightMode>) {
        if same_text(text, "DRIFT") {
            Some(ShipNavFlightMode::Drift)
        } else if same_text(text, "STEALTH") {
            Some(ShipNavFlightMode::Stealth)
        } else if same_text(text, "CRUISE") {
            Some(ShipNavFlightMode::Cruise)
        } else if same_text(text, "BURN") {
            Some(ShipNavFlightMode::Burn)
        } else {
            None
        }
    }

    fn family_name() -> (s: &'static str) {
        "ShipNavFlightMode"
    }

    proof fn lemma_decode_encode(v: ShipNavFlightMode) {
        reveal_strlit("DRIFT");
        reveal_strlit("STEALTH");
        reveal_strlit("CRUISE");
        reveal_strlit("BURN");
        assert("DRIFT"@.len() == 5);
        assert("STEALTH"@.len() == 7);
        assert("CRUISE"@.len() == 6);
        assert("BURN"@.len() == 4);
    }

    proof fn lemma_encode_decode(text: Seq<char>) {
    }
}

/// Where a ship is in its journey.
#[derive(Clone, Copy, Debug, PartialEq, Eq, Hash, Structural)]
pub enum ShipNavStatus {
    InTransit,
    InOrbit,
    Docked,
}

impl Symbol for ShipNavStatus {
    open spec fn wire_text(&self) -> Seq<char> {
        match self {
            ShipNavStatus::InTransit => "IN_TRANSIT"@,
            ShipNavStatus::InOrbit => "IN_ORBIT"@,
            ShipNavStatus::Docked => "DOCKED"@,
        }
    }

    open spec fn named(text: Seq<char>) -> Option<ShipNavStatus> {
        if text == "IN_TRANSIT"@ {
            Some(ShipNavStatus::InTransit)
        } else if text == "IN_ORBIT"@ {
            Some(ShipNavStatus::InOrbit)
        } else if text == "DOCKED"@ {
            Some(ShipNavStatus::Docked)
        } else {
            None
        }
    }

    open spec fn family() -> Seq<char> {
        "ShipNavStatus"@
    }

    fn encode(&self) -> (s: &'static str) {
        match self {
            ShipNavStatus::InTransit => "IN_TRANSIT",
            ShipNavStatus::InOrbit => "IN_ORBIT",
            ShipNavStatus::Docked => "DOCKED",
        }
    }

    fn variant(text: &str) -> (r: Option<ShipNavStatus>) {
        if same_text(text, "IN_TRANSIT") {
            Some(ShipNavStatus::InTransit)
        } else if same_text(text, "IN_ORBIT") {
            Some(ShipNavStatus::InOrbit)
        } else if same_text(text, "DOCKED") {
            Some(ShipNavStatus::Docked)
        } else {
            None
        }
    }

    fn family_name() -> (s: &'static str) {
        "ShipNavStatus"
    }

    proof fn lemma_decode_encode(v: ShipNavStatus) {
        reveal_strlit("IN_TRANSIT");
        reveal_strlit("IN_ORBIT");
        reveal_strlit("DOCKED");
        assert("IN_TRANSIT"@.len() == 10);
        assert("IN_ORBIT"@.len() == 8);
        assert("DOCKED"@.len() == 6);
    }

    proof fn lemma_encode_decode(text: Seq<char>) {
    }
}

/// The model of a ship reactor.
#[derive(Clone, Copy, Debug, PartialEq, Eq, Hash, Structural)]
pub enum ShipReactorSymbols {
    ReactorSolarI,
    ReactorFusionI,
    ReactorFissionI,
    ReactorChemicalI,
    ReactorAntimatterI,
}

impl Symbol for ShipReactorSymbols {
    open spec fn wire_text(&self) -> Seq<char> {
        match self {
            ShipReactorSymbols::ReactorSolarI => "REACTOR_SOLAR_I"@,
            ShipReactorSymbols::ReactorFusionI => "REACTOR_FUSION_I"@,
            ShipReactorSymbols::ReactorFissionI => "REACTOR_FISSION_I"@,
            ShipReactorSymbols::ReactorChemicalI => "REACTOR_CHEMICAL_I"@,
            ShipReactorSymbols::ReactorAntimatterI => "REACTOR_ANTIMATTER_I"@,
        }
    }

    open spec fn named(text: Seq<char>) -> Option<ShipReactorSymbols> {
        if text == "REACTOR_SOLAR_I"@ {
            Some(ShipReactorSymbols::ReactorSolarI)
        } else if text == "REACTOR_FUSION_I"@ {
            Some(ShipReactorSymbols::ReactorFusionI)
        } else if text == "REACTOR_FISSION_I"@ {
            Some(ShipReactorSymbols::ReactorFissionI)
        } else if text == "REACTOR_CHEMICAL_I"@ {
            Some(ShipReactorSymbols::ReactorChemicalI)
        } else if text == "REACTOR_ANTIMATTER_I"@ {
            Some(ShipReactorSymbols::ReactorAntimatterI)
        } else {
            None
        }
    }

    open spec fn family() -> Seq<char> {
        "ShipReactorSymbols"@
    }

    fn encode(&self) -> (s: &'static str) {
        match self {
            ShipReactorSymbols::ReactorSolarI => "REACTOR_SOLAR_I",
            ShipReactorSymbols::ReactorFusionI => "REACTOR_FUSION_I",
            ShipReactorSymbols::ReactorFissionI => "REACTOR_FISSION_I",
            ShipReactorSymbols::ReactorChemicalI => "REACTOR_CHEMICAL_I",
            ShipReactorSymbols::ReactorAntimatterI => "REACTOR_ANTIMATTER_I",
        }
    }

    fn variant(text: &str) -> (r: Option<ShipReactorSymbols>) {
        if same_text(text, "REACTOR_SOLAR_I") {
            Some(ShipReactorSymbols::ReactorSolarI)
        } else if same_text(text, "REACTOR_FUSION_I") {
            Some(ShipReactorSymbols::ReactorFusionI)
        } else if same_text(text, "REACTOR_FISSION_I") {
            Some(ShipReactorSymbols::ReactorFissionI)
        } else if same_text(text, "REACTOR_CHEMICAL_I") {
            Some(ShipReactorSymbols::ReactorChemicalI)
        } else if same_text(text, "REACTOR_ANTIMATTER_I") {
            Some(ShipReactorSymbols::ReactorAntimatterI)
        } else {
            None
        }
    }

    fn family_name() -> (s: &'static str) {
        "ShipReactorSymbols"
    }

    proof fn lemma_decode_encode(v: ShipReactorSymbols) {
        reveal_strlit("REACTOR_SOLAR_I");
        reveal_strlit("REACTOR_FUSION_I");
        reveal_strlit("REACTOR_FISSION_I");
        reveal_strlit("REACTOR_CHEMICAL_I");
        reveal_strlit("REACTOR_ANTIMATTER_I");
        assert("REACTOR_SOLAR_I"@.len() == 15);
        assert("REACTOR_FUSION_I"@.len() == 16);
        assert("REACTOR_FISSION_I"@.len() == 17);
        assert("REACTOR_CHEMICAL_I"@.len() == 18);
        assert("REACTOR_ANTIMATTER_I"@.len() == 20);
    }

    proof fn lemma_encode_decode(text: Seq<char>) {
    }
}

/// The role a ship is registered for.
#[derive(Clone, Copy, Debug, PartialEq, Eq, Hash, Structural)]
pub enum ShipRole {
    Fabricator,
    Harvester,
    Hauler,
    Interceptor,
    Excavator,
    Transport,
    Repair,
    Surveyor,
    Command,
    Carrier,
    Patrol,
    Satellite,
    Explorer,
    Refinery,
}

impl Symbol for ShipRole {
    open spec fn wire_text(&self) -> Seq<char> {
        match self {
            ShipRole::Fabricator => "FABRICATOR"@,
            ShipRole::Harvester => "HARVESTER"@,
            ShipRole::Hauler => "HAULER"@,
            ShipRole::Interceptor => "INTERCEPTOR"@,
            ShipRole::Excavator => "EXCAVATOR"@,
            ShipRole::Transport => "TRANSPORT"@,
            ShipRole::Repair => "REPAIR"@,
            ShipRole::Surveyor => "SURVEYOR"@,
            ShipRole::Command => "COMMAND"@,
            ShipRole::Carrier => "CARRIER"@,
            ShipRole::Patrol => "PATROL"@,
            ShipRole::Satellite => "SATELLITE"@,
            ShipRole::Explorer => "EXPLORER"@,
            ShipRole::Refinery => "REFINERY"@,
        }
    }

    open spec fn named(text: Seq<char>) -> Option<ShipRole> {
        if text == "FABRICATOR"@ {
            Some(ShipRole::Fabricator)
        } else if text == "HARVESTER"@ {
            Some(ShipRole::Harvester)
        } else if text == "HAULER"@ {
            Some(ShipRole::Hauler)
        } else if text == "INTERCEPTOR"@ {
            Some(ShipRole::Interceptor)
        } else if text == "EXCAVATOR"@ {
            Some(ShipRole::Excavator)
        } else if text == "TRANSPORT"@ {
            Some(ShipRole::Transport)
        } else if text == "REPAIR"@ {
            Some(ShipRole::Repair)
        } else if text == "SURVEYOR"@ {
            Some(ShipRole::Surveyor)
        } else if text == "COMMAND"@ {
            Some(ShipRole::Command)
        } else if text == "CARRIER"@ {
            Some(ShipRole::Carrier)
        } else if text == "PATROL"@ {
            Some(ShipRole::Patrol)
        } else if text == "SATELLITE"@ {
            Some(ShipRole::Satellite)
        } else if text == "EXPLORER"@ {
            Some(ShipRole::Explorer)
        } else if text == "REFINERY"@ {
            Some(ShipRole::Refinery)
        } else {
            None
        }
    }

    open spec fn family() -> Seq<char> {
        "ShipRole"@
    }

    fn encode(&self) -> (s: &'static str) {
        match self {
            ShipRole::Fabricator => "FABRICATOR",
            ShipRole::Harvester => "HARVESTER",
            ShipRole::Hauler => "HAULER",
            ShipRole::Interceptor => "INTERCEPTOR",
            ShipRole::Excavator => "EXCAVATOR",
            ShipRole::Transport => "TRANSPORT",
            ShipRole::Repair => "REPAIR",
            ShipRole::Surveyor => "SURVEYOR",
            ShipRole::Command => "COMMAND",
            ShipRole::Carrier => "CARRIER",
            ShipRole::Patrol => "PATROL",
            ShipRole::Satellite => "SATELLITE",
            ShipRole::Explorer => "EXPLORER",
            ShipRole::Refinery => "REFINERY",
        }
    }

    fn variant(text: &str) -> (r: Option<ShipRole>) {
        if same_text(text, "FABRICATOR") {
            Some(ShipRole::Fabricator)
        } else if same_text(text, "HARVESTER") {
            Some(ShipRole::Harvester)
        } else if same_text(text, "HAULER") {
            Some(ShipRole::Hauler)
        } else if same_text(text, "INTERCEPTOR") {
            Some(ShipRole::Interceptor)
        } else if same_text(text, "EXCAVATOR") {
            Some(ShipRole::Excavator)
        } else if same_text(text, "TRANSPORT") {
            Some(ShipRole::Transport)
        } else if same_text(text, "REPAIR") {
            Some(ShipRole::Repair)
        } else if same_text(text, "SURVEYOR") {
            Some(ShipRole::Surveyor)
        } else if same_text(text, "COMMAND") {
            Some(ShipRole::Command)
        } else if same_text(text, "CARRIER") {
            Some(ShipRole::Carrier)
        } else if same_text(text, "PATROL") {
            Some(ShipRole::Patrol)
        } else if same_text(text, "SATELLITE") {
            Some(ShipRole::Satellite)
        } else if same_text(text, "EXPLORER") {
            Some(ShipRole::Explorer)
        } else if same_text(text, "REFINERY") {
            Some(ShipRole::Refinery)
        } else {
            None
        }
    }

    fn family_name() -> (s: &'static str) {
        "ShipRole"
    }

    proof fn lemma_decode_encode(v: ShipRole) {
        reveal_strlit("FABRICATOR");
        reveal_strlit("HARVESTER");
        reveal_strlit("HAULER");
        reveal_strlit("INTERCEPTOR");
        reveal_strlit("EXCAVATOR");
        reveal_strlit("TRANSPORT");
        reveal_strlit("REPAIR");
        reveal_strlit("SURVEYOR");
        reveal_strlit("COMMAND");
        reveal_strlit("CARRIER");
        reveal_strlit("PATROL");
        reveal_strlit("SATELLITE");
        reveal_strlit("EXPLORER");
        reveal_strlit("REFINERY");
        assert("FABRICATOR"@.len() == 10);
        assert("HARVESTER"@.len() == 9 && "HARVESTER"@[0] == 'H');
        assert("HAULER"@.len() == 6 && "HAULER"@[0] == 'H');
        assert("INTERCEPTOR"@.len() == 11);
        assert("EXCAVATOR"@.len() == 9 && "EXCAVATOR"@[0] == 'E');
        assert("TRANSPORT"@.len() == 9 && "TRANSPORT"@[0] == 'T');
        assert("REPAIR"@.len() == 6 && "REPAIR"@[0] == 'R');
        assert("SURVEYOR"@.len() == 8 && "SURVEYOR"@[0] == 'S');
        assert("COMMAND"@.len() == 7 && "COMMAND"@[1] == 'O');
        assert("CARRIER"@.len() == 7 && "CARRIER"@[1] == 'A');
        assert("PATROL"@.len() == 6 && "PATROL"@[0] == 'P');
        assert("SATELLITE"@.len() == 9 && "SATELLITE"@[0] == 'S');
        assert("EXPLORER"@.len() == 8 && "EXPLORER"@[0] == 'E');
        assert("REFINERY"@.len() == 8 && "REFINERY"@[0] == 'R');
    }

    proof fn lemma_encode_decode(text: Seq<char>) {
    }
}

/// A type of ship that a shipyard sells.
#[derive(Clone, Copy, Debug, PartialEq, Eq, Hash, Structural)]
pub enum ShipType {
    ShipProbe,
    ShipMiningDrone,
    ShipInterceptor,
    ShipLightHauler,
    ShipCommandFrigate,
    ShipExplorer,
    ShipHeavyFreighter,
    ShipLightShuttle,
    ShipOreHound,
    ShipRefiningFreighter,
}

impl Symbol for ShipType {
    open spec fn wire_text(&self) -> Seq<char> {
        match self {
            ShipType::ShipProbe => "SHIP_PROBE"@,
            ShipType::ShipMiningDrone => "SHIP_MINING_DRONE"@,
            ShipType::ShipInterceptor => "SHIP_INTERCEPTOR"@,
            ShipType::ShipLightHauler => "SHIP_LIGHT_HAULER"@,
            ShipType::ShipCommandFrigate => "SHIP_COMMAND_FRIGATE"@,
            ShipType::ShipExplorer => "SHIP_EXPLORER"@,
            ShipType::ShipHeavyFreighter => "SHIP_HEAVY_FREIGHTER"@,
            ShipType::ShipLightShuttle => "SHIP_LIGHT_SHUTTLE"@,
            ShipType::ShipOreHound => "SHIP_ORE_HOUND"@,
            ShipType::ShipRefiningFreighter => "SHIP_REFINING_FREIGHTER"@,
        }
    }

    open spec fn named(text: Seq<char>) -> Option<ShipType> {
        if text == "SHIP_PROBE"@ {
            Some(ShipType::ShipProbe)
        } else if text == "SHIP_MINING_DRONE"@ {
            Some(ShipType::ShipMiningDrone)
        } else if text == "SHIP_INTERCEPTOR"@ {
            Some(ShipType::ShipInterceptor)
        } else if text == "SHIP_LIGHT_HAULER"@ {
            Some(ShipType::ShipLightHauler)
        } else if text == "SHIP_COMMAND_FRIGATE"@ {
            Some(ShipType::ShipCommandFrigate)
        } else if text == "SHIP_EXPLORER"@ {
            Some(ShipType::ShipExplorer)
        } else if text == "SHIP_HEAVY_FREIGHTER"@ {
            Some(ShipType::ShipHeavyFreighter)
        } else if text == "SHIP_LIGHT_SHUTTLE"@ {
            Some(ShipType::ShipLightShuttle)
        } else if text == "SHIP_ORE_HOUND"@ {
            Some(ShipType::ShipOreHound)
        } else if text == "SHIP_REFINING_FREIGHTER"@ {
            Some(ShipType::ShipRefiningFreighter)
        } else {
            None
        }
    }

    open spec fn family() -> Seq<char> {
        "ShipType"@
    }

    fn encode(&self) -> (s: &'static str) {
        match self {
            ShipType::ShipProbe => "SHIP_PROBE",
            ShipType::ShipMiningDrone => "SHIP_MINING_DRONE",
            ShipType::ShipInterceptor => "SHIP_INTERCEPTOR",
            ShipType::ShipLightHauler => "SHIP_LIGHT_HAULER",
            ShipType::ShipCommandFrigate => "SHIP_COMMAND_FRIGATE",
            ShipType::ShipExplorer => "SHIP_EXPLORER",
            ShipType::ShipHeavyFreighter => "SHIP_HEAVY_FREIGHTER",
            ShipType::ShipLightShuttle => "SHIP_LIGHT_SHUTTLE",
            ShipType::ShipOreHound => "SHIP_ORE_HOUND",
            ShipType::ShipRefiningFreighter => "SHIP_REFINING_FREIGHTER",
        }
    }

    fn variant(text: &str) -> (r: Option<ShipType>) {
        if same_text(text, "SHIP_PROBE") {
            Some(ShipType::ShipProbe)
        } else if same_text(text, "SHIP_MINING_DRONE") {
            Some(ShipType::ShipMiningDrone)
        } else if same_text(text, "SHIP_INTERCEPTOR") {
            Some(ShipType::ShipInterceptor)
        } else if same_text(text, "SHIP_LIGHT_HAULER") {
            Some(ShipType::ShipLightHauler)
        } else if same_text(text, "SHIP_COMMAND_FRIGATE") {
            Some(ShipType::ShipCommandFrigate)
        } else if same_text(text, "SHIP_EXPLORER") {
            Some(ShipType::ShipExplorer)
        } else if same_text(text, "SHIP_HEAVY_FREIGHTER") {
            Some(ShipType::ShipHeavyFreighter)
        } else if same_text(text, "SHIP_LIGHT_SHUTTLE") {
            Some(ShipType::ShipLightShuttle)
        } else if same_text(text, "SHIP_ORE_HOUND") {
            Some(ShipType::ShipOreHound)
        } else if same_text(text, "SHIP_REFINING_FREIGHTER") {
            Some(ShipType::ShipRefiningFreighter)
        } else {
            None
        }
    }

    fn family_name() -> (s: &'static str) {
        "ShipType"
    }

    proof fn lemma_decode_encode(v: ShipType) {
        reveal_strlit("SHIP_PROBE");
        reveal_strlit("SHIP_MINING_DRONE");
        reveal_strlit("SHIP_INTERCEPTOR");
        reveal_strlit("SHIP_LIGHT_HAULER");
        reveal_strlit("SHIP_COMMAND_FRIGATE");
        reveal_strlit("SHIP_EXPLORER");
        reveal_strlit("SHIP_HEAVY_FREIGHTER");
        reveal_strlit("SHIP_LIGHT_SHUTTLE");
        reveal_strlit("SHIP_ORE_HOUND");
        reveal_strlit("SHIP_REFINING_FREIGHTER");
        assert("SHIP_PROBE"@.len() == 10);
        assert("SHIP_MINING_DRONE"@.len() == 17 && "SHIP_MINING_DRONE"@[5] == 'M');
        assert("SHIP_INTERCEPTOR"@.len() == 16);
        assert("SHIP_LIGHT_HAULER"@.len() == 17 && "SHIP_LIGHT_HAULER"@[5] == 'L');
        assert("SHIP_COMMAND_FRIGATE"@.len() == 20 && "SHIP_COMMAND_FRIGATE"@[5] == 'C');
        assert("SHIP_EXPLORER"@.len() == 13);
        assert("SHIP_HEAVY_FREIGHTER"@.len() == 20 && "SHIP_HEAVY_FREIGHTER"@[5] == 'H');
        assert("SHIP_LIGHT_SHUTTLE"@.len() == 18);
        assert("SHIP_ORE_HOUND"@.len() == 14);
        assert("SHIP_REFINING_FREIGHTER"@.len() == 23);
    }

    proof fn lemma_encode_decode(text: Seq<char>) {
    }
}

/// The kind of star system.
#[derive(Clone, Copy, Debug, PartialEq, Eq, Hash, Structural)]
pub enum SystemType {
    NeutronStar,
    RedStar,
    OrangeStar,
    BlueStar,
    YoungStar,
    WhiteDwarf,
    BlackHole,
    Hypergiant,
    Nebula,
    Unstable,
}

impl Symbol for SystemType {
    open spec fn wire_text(&self) -> Seq<char> {
        match self {
            SystemType::NeutronStar => "NEUTRON_STAR"@,
            SystemType::RedStar => "RED_STAR"@,
            SystemType::OrangeStar => "ORANGE_STAR"@,
            SystemType::BlueStar => "BLUE_STAR"@,
            SystemType::YoungStar => "YOUNG_STAR"@,
            SystemType::WhiteDwarf => "WHITE_DWARF"@,
            SystemType::BlackHole => "BLACK_HOLE"@,
            SystemType::Hypergiant => "HYPERGIANT"@,
            SystemType::Nebula => "NEBULA"@,
            SystemType::Unstable => "UNSTABLE"@,
        }
    }

    open spec fn named(text: Seq<char>) -> Option<SystemType> {
        if text == "NEUTRON_STAR"@ {
            Some(SystemType::NeutronStar)
        } else if text == "RED_STAR"@ {
            Some(SystemType::RedStar)
        } else if text == "ORANGE_STAR"@ {
            Some(SystemType::OrangeStar)
        } else if text == "BLUE_STAR"@ {
            Some(SystemType::BlueStar)
        } else if text == "YOUNG_STAR"@ {
            Some(SystemType::YoungStar)
        } else if text == "WHITE_DWARF"@ {
            Some(SystemType::WhiteDwarf)
        } else if text == "BLACK_HOLE"@ {
            Some(SystemType::BlackHole)
        } else if text == "HYPERGIANT"@ {
            Some(SystemType::Hypergiant)
        } else if text == "NEBULA"@ {
            Some(SystemType::Nebula)
        } else if text == "UNSTABLE"@ {
            Some(SystemType::Unstable)
        } else {
            None
        }
    }

    open spec fn family() -> Seq<char> {
        "SystemType"@
    }

    fn encode(&self) -> (s: &'static str) {
        match self {
            SystemType::NeutronStar => "NEUTRON_STAR",
            SystemType::RedStar => "RED_STAR",
            SystemType::OrangeStar => "ORANGE_STAR",
            SystemType::BlueStar => "BLUE_STAR",
            SystemType::YoungStar => "YOUNG_STAR",
            SystemType::WhiteDwarf => "WHITE_DWARF",
            SystemType::BlackHole => "BLACK_HOLE",
            SystemType::Hypergiant => "HYPERGIANT",
            SystemType::Nebula => "NEBULA",
            SystemType::Unstable => "UNSTABLE",
        }
    }

    fn variant(text: &str) -> (r: Option<SystemType>) {
        if same_text(text, "NEUTRON_STAR") {
            Some(SystemType::NeutronStar)
        } else if same_text(text, "RED_STAR") {
            Some(SystemType::RedStar)
        } else if same_text(text, "ORANGE_STAR") {
            Some(SystemType::OrangeStar)
        } else if same_text(text, "BLUE_STAR") {
            Some(SystemType::BlueStar)
        } else if same_text(text, "YOUNG_STAR") {
            Some(SystemType::YoungStar)
        } else if same_text(text, "WHITE_DWARF") {
            Some(SystemType::WhiteDwarf)
        } else if same_text(text, "BLACK_HOLE") {
            Some(SystemType::BlackHole)
        } else if same_text(text, "HYPERGIANT") {
            Some(SystemType::Hypergiant)
        } else if same_text(text, "NEBULA") {
            Some(SystemType::Nebula)
        } else if same_text(text, "UNSTABLE") {
            Some(SystemType::Unstable)
        } else {
            None
        }
    }

    fn family_name() -> (s: &'static str) {
        "SystemType"
    }

    proof fn lemma_decode_encode(v: SystemType) {
        reveal_strlit("NEUTRON_STAR");
        reveal_strlit("RED_STAR");
        reveal_strlit("ORANGE_STAR");
        reveal_strlit("BLUE_STAR");
        reveal_strlit("YOUNG_STAR");
        reveal_strlit("WHITE_DWARF");
        reveal_strlit("BLACK_HOLE");
        reveal_strlit("HYPERGIANT");
        reveal_strlit("NEBULA");
        reveal_strlit("UNSTABLE");
        assert("NEUTRON_STAR"@.len() == 12);
        assert("RED_STAR"@.len() == 8 && "RED_STAR"@[0] == 'R');
        assert("ORANGE_STAR"@.len() == 11 && "ORANGE_STAR"@[0] == 'O');
        assert("BLUE_STAR"@.len() == 9);
        assert("YOUNG_STAR"@.len() == 10 && "YOUNG_STAR"@[0] == 'Y');
        assert("WHITE_DWARF"@.len() == 11 && "WHITE_DWARF"@[0] == 'W');
        assert("BLACK_HOLE"@.len() == 10 && "BLACK_HOLE"@[0] == 'B');
        assert("HYPERGIANT"@.len() == 10 && "HYPERGIANT"@[0] == 'H');
        assert("NEBULA"@.len() == 6);
        assert("UNSTABLE"@.len() == 8 && "UNSTABLE"@[0] == 'U');
    }

    proof fn lemma_encode_decode(text: Seq<char>) {
    }
}

/// A good that markets trade.
#[derive(Clone, Copy, Debug, PartialEq, Eq, Hash, Structural)]
pub enum TradeSymbol {
    PreciousStones,
    QuartzSand,
    SiliconCrystals,
    AmmoniaIce,
    LiquidHydrogen,
    LiquidNitrogen,
    IceWater,
    ExoticMatter,
    AdvancedCircuitry,
    GravitonEmitters,
    Iron,
    IronOre,
    Copper,
    CopperOre,
    Aluminum,
    AluminumOre,
    Silver,
    SilverOre,
    Gold,
    GoldOre,
    Platinum,
    PlatinumOre,
    Diamonds,
    Uranite,
    UraniteOre,
    Meritium,
    MeritiumOre,
    Hydrocarbon,
    Antimatter,
    Fertilizers,
    Fabrics,
    Food,
    Jewelry,
    Machinery,
    Firearms,
    AssaultRifles,
    MilitaryEquipment,
    Explosives,
    LabInstruments,
    Ammunition,
    Electronics,
    ShipPlating,
    Equipment,
    Fuel,
    Medicine,
    Drugs,
    Clothing,
    Microprocessors,
    Plastics,
    Polynucleotides,
    Biocomposites,
    Nanobots,
    AiMainframes,
    QuantumDrives,
    RoboticDrones,
    CyberImplants,
    GeneTherapeutics,
    NeuralChips,
    MoodRegulators,
    ViralAgents,
    MicroFusionGenerators,
    Supergrains,
    LaserRifles,
    Holographics,
    ShipSalvage,
    RelicTech,
    NovelLifeforms,
    BotanicalSpecimens,
    CulturalArtifacts,
    ReactorSolarI,
    ReactorFusionI,
    ReactorFissionI,
    ReactorChemicalI,
    ReactorAntimatterI,
    EngineImpulseDriveI,
    EngineIonDriveI,
    EngineIonDriveIi,
    EngineHyperDriveI,
    ModuleMineralProcessorI,
    ModuleCargoHoldI,
    ModuleCrewQuartersI,
    ModuleEnvoyQuartersI,
    ModulePassengerCabinI,
    ModuleMicroRefineryI,
    ModuleOreRefineryI,
    ModuleFuelRefineryI,
    ModuleScienceLabI,
    ModuleJumpDriveI,
    ModuleJumpDriveIi,
    ModuleJumpDriveIii,
    ModuleWarpDriveI,
    ModuleWarpDriveIi,
    ModuleWarpDriveIii,
    ModuleShieldGeneratorI,
    ModuleShieldGeneratorIi,
    MountGasSiphonI,
    MountGasSiphonIi,
    MountGasSiphonIii,
    MountSurveyorI,
    MountSurveyorIi,
    MountSurveyorIii,
    MountSensorArrayI,
    MountSensorArrayIi,
    MountSensorArrayIii,
    MountMiningLaserI,
    MountMiningLaserIi,
    MountMiningLaserIii,
    MountLaserCannonI,
    MountMissileLauncherI,
    MountTurretI,
}

impl Symbol for TradeSymbol {
    open spec fn wire_text(&self) -> Seq<char> {
        match self {
            TradeSymbol::PreciousStones => "PRECIOUS_STONES"@,
            TradeSymbol::QuartzSand => "QUARTZ_SAND"@,
            TradeSymbol::SiliconCrystals => "SILICON_CRYSTALS"@,
            TradeSymbol::AmmoniaIce => "AMMONIA_ICE"@,
            TradeSymbol::LiquidHydrogen => "LIQUID_HYDROGEN"@,
            TradeSymbol::LiquidNitrogen => "LIQUID_NITROGEN"@,
            TradeSymbol::IceWater => "ICE_WATER"@,
            TradeSymbol::ExoticMatter => "EXOTIC_MATTER"@,
            TradeSymbol::AdvancedCircuitry => "ADVANCED_CIRCUITRY"@,
            TradeSymbol::GravitonEmitters => "GRAVITON_EMITTERS"@,
            TradeSymbol::Iron => "IRON"@,
            TradeSymbol::IronOre => "IRON_ORE"@,
            TradeSymbol::Copper => "COPPER"@,
            TradeSymbol::CopperOre => "COPPER_ORE"@,
            TradeSymbol::Aluminum => "ALUMINUM"@,
            TradeSymbol::AluminumOre => "ALUMINUM_ORE"@,
            TradeSymbol::Silver => "SILVER"@,
            TradeSymbol::SilverOre => "SILVER_ORE"@,
            TradeSymbol::Gold => "GOLD"@,
            TradeSymbol::GoldOre => "GOLD_ORE"@,
            TradeSymbol::Platinum => "PLATINUM"@,
            TradeSymbol::PlatinumOre => "PLATINUM_ORE"@,
            TradeSymbol::Diamonds => "DIAMONDS"@,
            TradeSymbol::Uranite => "URANITE"@,
            TradeSymbol::UraniteOre => "URANITE_ORE"@,
            TradeSymbol::Meritium => "MERITIUM"@,
            TradeSymbol::MeritiumOre => "MERITIUM_ORE"@,
            TradeSymbol::Hydrocarbon => "HYDROCARBON"@,
            TradeSymbol::Antimatter => "ANTIMATTER"@,
            TradeSymbol::Fertilizers => "FERTILIZERS"@,
            TradeSymbol::Fabrics => "FABRICS"@,
            TradeSymbol::Food => "FOOD"@,
            TradeSymbol::Jewelry => "JEWELRY"@,
            TradeSymbol::Machinery => "MACHINERY"@,
            TradeSymbol::Firearms => "FIREARMS"@,
            TradeSymbol::AssaultRifles => "ASSAULT_RIFLES"@,
            TradeSymbol::MilitaryEquipment => "MILITARY_EQUIPMENT"@,
            TradeSymbol::Explosives => "EXPLOSIVES"@,
            TradeSymbol::LabInstruments => "LAB_INSTRUMENTS"@,
            TradeSymbol::Ammunition => "AMMUNITION"@,
            TradeSymbol::Electronics => "ELECTRONICS"@,
            TradeSymbol::ShipPlating => "SHIP_PLATING"@,
            TradeSymbol::Equipment => "EQUIPMENT"@,
            TradeSymbol::Fuel => "FUEL"@,
            TradeSymbol::Medicine => "MEDICINE"@,
            TradeSymbol::Drugs => "DRUGS"@,
            TradeSymbol::Clothing => "CLOTHING"@,
            TradeSymbol::Microprocessors => "MICROPROCESSORS"@,
            TradeSymbol::Plastics => "PLASTICS"@,
            TradeSymbol::Polynucleotides => "POLYNUCLEOTIDES"@,
            TradeSymbol::Biocomposites => "BIOCOMPOSITES"@,
            TradeSymbol::Nanobots => "NANOBOTS"@,
            TradeSymbol::AiMainframes => "AI_MAINFRAMES"@,
            TradeSymbol::QuantumDrives => "QUANTUM_DRIVES"@,
            TradeSymbol::RoboticDrones => "ROBOTIC_DRONES"@,
            TradeSymbol::CyberImplants => "CYBER_IMPLANTS"@,
            TradeSymbol::GeneTherapeutics => "GENE_THERAPEUTICS"@,
            TradeSymbol::NeuralChips => "NEURAL_CHIPS"@,
            TradeSymbol::MoodRegulators => "MOOD_REGULATORS"@,
            TradeSymbol::ViralAgents => "VIRAL_AGENTS"@,
            TradeSymbol::MicroFusionGenerators => "MICRO_FUSION_GENERATORS"@,
            TradeSymbol::Supergrains => "SUPERGRAINS"@,
            TradeSymbol::LaserRifles => "LASER_RIFLES"@,
            TradeSymbol::Holographics => "HOLOGRAPHICS"@,
            TradeSymbol::ShipSalvage => "SHIP_SALVAGE"@,
            TradeSymbol::RelicTech => "RELIC_TECH"@,
            TradeSymbol::NovelLifeforms => "NOVEL_LIFEFORMS"@,
            TradeSymbol::BotanicalSpecimens => "BOTANICAL_SPECIMENS"@,
            TradeSymbol::CulturalArtifacts => "CULTURAL_ARTIFACTS"@,
            TradeSymbol::ReactorSolarI => "REACTOR_SOLAR_I"@,
            TradeSymbol::ReactorFusionI => "REACTOR_FUSION_I"@,
            TradeSymbol::ReactorFissionI => "REACTOR_FISSION_I"@,
            TradeSymbol::ReactorChemicalI => "REACTOR_CHEMICAL_I"@,
            TradeSymbol::ReactorAntimatterI => "REACTOR_ANTIMATTER_I"@,
            TradeSymbol::EngineImpulseDriveI => "ENGINE_IMPULSE_DRIVE_I"@,
            TradeSymbol::EngineIonDriveI => "ENGINE_ION_DRIVE_I"@,
            TradeSymbol::EngineIonDriveIi => "ENGINE_ION_DRIVE_II"@,
            TradeSymbol::EngineHyperDriveI => "ENGINE_HYPER_DRIVE_I"@,
            TradeSymbol::ModuleMineralProcessorI => "MODULE_MINERAL_PROCESSOR_I"@,
            TradeSymbol::ModuleCargoHoldI => "MODULE_CARGO_HOLD_I"@,
            TradeSymbol::ModuleCrewQuartersI => "MODULE_CREW_QUARTERS_I"@,
            TradeSymbol::ModuleEnvoyQuartersI => "MODULE_ENVOY_QUARTERS_I"@,
            TradeSymbol::ModulePassengerCabinI => "MODULE_PASSENGER_CABIN_I"@,
            TradeSymbol::ModuleMicroRefineryI => "MODULE_MICRO_REFINERY_I"@,
            TradeSymbol::ModuleOreRefineryI => "MODULE_ORE_REFINERY_I"@,
            TradeSymbol::ModuleFuelRefineryI => "MODULE_FUEL_REFINERY_I"@,
            TradeSymbol::ModuleScienceLabI => "MODULE_SCIENCE_LAB_I"@,
            TradeSymbol::ModuleJumpDriveI => "MODULE_JUMP_DRIVE_I"@,
            TradeSymbol::ModuleJumpDriveIi => "MODULE_JUMP_DRIVE_II"@,
            TradeSymbol::ModuleJumpDriveIii => "MODULE_JUMP_DRIVE_III"@,
            TradeSymbol::ModuleWarpDriveI => "MODULE_WARP_DRIVE_I"@,
            TradeSymbol::ModuleWarpDriveIi => "MODULE_WARP_DRIVE_II"@,
            TradeSymbol::ModuleWarpDriveIii => "MODULE_WARP_DRIVE_III"@,
            TradeSymbol::ModuleShieldGeneratorI => "MODULE_SHIELD_GENERATOR_I"@,
            TradeSymbol::ModuleShieldGeneratorIi => "MODULE_SHIELD_GENERATOR_II"@,
            TradeSymbol::MountGasSiphonI => "MOUNT_GAS_SIPHON_I"@,
            TradeSymbol::MountGasSiphonIi => "MOUNT_GAS_SIPHON_II"@,
            TradeSymbol::MountGasSiphonIii => "MOUNT_GAS_SIPHON_III"@,
            TradeSymbol::MountSurveyorI => "MOUNT_SURVEYOR_I"@,
            TradeSymbol::MountSurveyorIi => "MOUNT_SURVEYOR_II"@,
            TradeSymbol::MountSurveyorIii => "MOUNT_SURVEYOR_III"@,
            TradeSymbol::MountSensorArrayI => "MOUNT_SENSOR_ARRAY_I"@,
            TradeSymbol::MountSensorArrayIi => "MOUNT_SENSOR_ARRAY_II"@,
            TradeSymbol::MountSensorArrayIii => "MOUNT_SENSOR_ARRAY_III"@,
            TradeSymbol::MountMiningLaserI => "MOUNT_MINING_LASER_I"@,
            TradeSymbol::MountMiningLaserIi => "MOUNT_MINING_LASER_II"@,
            TradeSymbol::MountMiningLaserIii => "MOUNT_MINING_LASER_III"@,
            TradeSymbol::MountLaserCannonI => "MOUNT_LASER_CANNON_I"@,
            TradeSymbol::MountMissileLauncherI => "MOUNT_MISSILE_LAUNCHER_I"@,
            TradeSymbol::MountTurretI => "MOUNT_TURRET_I"@,
        }
    }

    open spec fn named(text: Seq<char>) -> Option<TradeSymbol> {
        if text == "PRECIOUS_STONES"@ {
            Some(TradeSymbol::PreciousStones)
        } else if text == "QUARTZ_SAND"@ {
            Some(TradeSymbol::QuartzSand)
        } else if text == "SILICON_CRYSTALS"@ {
            Some(TradeSymbol::SiliconCrystals)
        } else if text == "AMMONIA_ICE"@ {
            Some(TradeSymbol::AmmoniaIce)
        } else if text == "LIQUID_HYDROGEN"@ {
            Some(TradeSymbol::LiquidHydrogen)
        } else if text == "LIQUID_NITROGEN"@ {
            Some(TradeSymbol::LiquidNitrogen)
        } else if text == "ICE_WATER"@ {
            Some(TradeSymbol::IceWater)
        } else if text == "EXOTIC_MATTER"@ {
            Some(TradeSymbol::ExoticMatter)
        } else if text == "ADVANCED_CIRCUITRY"@ {
            Some(TradeSymbol::AdvancedCircuitry)
        } else if text == "GRAVITON_EMITTERS"@ {
            Some(TradeSymbol::GravitonEmitters)
        } else if text == "IRON"@ {
            Some(TradeSymbol::Iron)
        } else if text == "IRON_ORE"@ {
            Some(TradeSymbol::IronOre)
        } else if text == "COPPER"@ {
            Some(TradeSymbol::Copper)
        } else if text == "COPPER_ORE"@ {
            Some(TradeSymbol::CopperOre)
        } else if text == "ALUMINUM"@ {
            Some(TradeSymbol::Aluminum)
        } else if text == "ALUMINUM_ORE"@ {
            Some(TradeSymbol::AluminumOre)
        } else if text == "SILVER"@ {
            Some(TradeSymbol::Silver)
        } else if text == "SILVER_ORE"@ {
            Some(TradeSymbol::SilverOre)
        } else if text == "GOLD"@ {
            Some(TradeSymbol::Gold)
        } else if text == "GOLD_ORE"@ {
            Some(TradeSymbol::GoldOre)
        } else if text == "PLATINUM"@ {
            Some(TradeSymbol::Platinum)
        } else if text == "PLATINUM_ORE"@ {
            Some(TradeSymbol::PlatinumOre)
        } else if text == "DIAMONDS"@ {
            Some(TradeSymbol::Diamonds)
        } else if text == "URANITE"@ {
            Some(TradeSymbol::Uranite)
        } else if text == "URANITE_ORE"@ {
            Some(TradeSymbol::UraniteOre)
        } else if text == "MERITIUM"@ {
            Some(TradeSymbol::Meritium)
        } else if text == "MERITIUM_ORE"@ {
            Some(TradeSymbol::MeritiumOre)
        } else if text == "HYDROCARBON"@ {
            Some(TradeSymbol::Hydrocarbon)
        } else if text == "ANTIMATTER"@ {
            Some(TradeSymbol::Antimatter)
        } else if text == "FERTILIZERS"@ {
            Some(TradeSymbol::Fertilizers)
        } else if text == "FABRICS"@ {
            Some(TradeSymbol::Fabrics)
        } else if text == "FOOD"@ {
            Some(TradeSymbol::Food)
        } else if text == "JEWELRY"@ {
            Some(TradeSymbol::Jewelry)
        } else if text == "MACHINERY"@ {
            Some(TradeSymbol::Machinery)
        } else if text == "FIREARMS"@ {
            Some(TradeSymbol::Firearms)
        } else if text == "ASSAULT_RIFLES"@ {
            Some(TradeSymbol::AssaultRifles)
        } else if text == "MILITARY_EQUIPMENT"@ {
            Some(TradeSymbol::MilitaryEquipment)
        } else if text == "EXPLOSIVES"@ {
            Some(TradeSymbol::Explosives)
        } else if text == "LAB_INSTRUMENTS"@ {
            Some(TradeSymbol::LabInstruments)
        } else if text == "AMMUNITION"@ {
            Some(TradeSymbol::Ammunition)
        } else if text == "ELECTRONICS"@ {
            Some(TradeSymbol::Electronics)
        } else if text == "SHIP_PLATING"@ {
            Some(TradeSymbol::ShipPlating)
        } else if text == "EQUIPMENT"@ {
            Some(TradeSymbol::Equipment)
        } else if text == "FUEL"@ {
            Some(TradeSymbol::Fuel)
        } else if text == "MEDICINE"@ {
            Some(TradeSymbol::Medicine)
        } else if text == "DRUGS"@ {
            Some(TradeSymbol::Drugs)
        } else if text == "CLOTHING"@ {
            Some(TradeSymbol::Clothing)
        } else if text == "MICROPROCESSORS"@ {
            Some(TradeSymbol::Microprocessors)
        } else if text == "PLASTICS"@ {
            Some(TradeSymbol::Plastics)
        } else if text == "POLYNUCLEOTIDES"@ {
            Some(TradeSymbol::Polynucleotides)
        } else if text == "BIOCOMPOSITES"@ {
            Some(TradeSymbol::Biocomposites)
        } else if text == "NANOBOTS"@ {
            Some(TradeSymbol::Nanobots)
        } else if text == "AI_MAINFRAMES"@ {
            Some(TradeSymbol::AiMainframes)
        } else if text == "QUANTUM_DRIVES"@ {
            Some(TradeSymbol::QuantumDrives)
        } else if text == "ROBOTIC_DRONES"@ {
            Some(TradeSymbol::RoboticDrones)
        } else if text == "CYBER_IMPLANTS"@ {
            Some(TradeSymbol::CyberImplants)
        } else if text == "GENE_THERAPEUTICS"@ {
            Some(TradeSymbol::GeneTherapeutics)
        } else if text == "NEURAL_CHIPS"@ {
            Some(TradeSymbol::NeuralChips)
        } else if text == "MOOD_REGULATORS"@ {
            Some(TradeSymbol::MoodRegulators)
        } else if text == "VIRAL_AGENTS"@ {
            Some(TradeSymbol::ViralAgents)
        } else if text == "MICRO_FUSION_GENERATORS"@ {
            Some(TradeSymbol::MicroFusionGenerators)
        } else if text == "SUPERGRAINS"@ {
            Some(TradeSymbol::Supergrains)
        } else if text == "LASER_RIFLES"@ {
            Some(TradeSymbol::LaserRifles)
        } else if text == "HOLOGRAPHICS"@ {
            Some(TradeSymbol::Holographics)
        } else if text == "SHIP_SALVAGE"@ {
            Some(TradeSymbol::ShipSalvage)
        } else if text == "RELIC_TECH"@ {
            Some(TradeSymbol::RelicTech)
        } else if text == "NOVEL_LIFEFORMS"@ {
            Some(TradeSymbol::NovelLifeforms)
        } else if text == "BOTANICAL_SPECIMENS"@ {
            Some(TradeSymbol::BotanicalSpecimens)
        } else if text == "CULTURAL_ARTIFACTS"@ {
            Some(TradeSymbol::CulturalArtifacts)
        } else if text == "REACTOR_SOLAR_I"@ {
            Some(TradeSymbol::ReactorSolarI)
        } else if text == "REACTOR_FUSION_I"@ {
            Some(TradeSymbol::ReactorFusionI)
        } else if text == "REACTOR_FISSION_I"@ {
            Some(TradeSymbol::ReactorFissionI)
        } else if text == "REACTOR_CHEMICAL_I"@ {
            Some(TradeSymbol::ReactorChemicalI)
        } else if text == "REACTOR_ANTIMATTER_I"@ {
            Some(TradeSymbol::ReactorAntimatterI)
        } else if text == "ENGINE_IMPULSE_DRIVE_I"@ {
            Some(TradeSymbol::EngineImpulseDriveI)
        } else if text == "ENGINE_ION_DRIVE_I"@ {
            Some(TradeSymbol::EngineIonDriveI)
        } else if text == "ENGINE_ION_DRIVE_II"@ {
            Some(TradeSymbol::EngineIonDriveIi)
        } else if text == "ENGINE_HYPER_DRIVE_I"@ {
            Some(TradeSymbol::EngineHyperDriveI)
        } else if text == "MODULE_MINERAL_PROCESSOR_I"@ {
            Some(TradeSymbol::ModuleMineralProcessorI)
        } else if text == "MODULE_CARGO_HOLD_I"@ {
            Some(TradeSymbol::ModuleCargoHoldI)
        } else if text == "MODULE_CREW_QUARTERS_I"@ {
            Some(TradeSymbol::ModuleCrewQuartersI)
        } else if text == "MODULE_ENVOY_QUARTERS_I"@ {
            Some(TradeSymbol::ModuleEnvoyQuartersI)
        } else if text == "MODULE_PASSENGER_CABIN_I"@ {
            Some(TradeSymbol::ModulePassengerCabinI)
        } else if text == "MODULE_MICRO_REFINERY_I"@ {
            Some(TradeSymbol::ModuleMicroRefineryI)
        } else if text == "MODULE_ORE_REFINERY_I"@ {
            Some(TradeSymbol::ModuleOreRefineryI)
        } else if text == "MODULE_FUEL_REFINERY_I"@ {
            Some(TradeSymbol::ModuleFuelRefineryI)
        } else if text == "MODULE_SCIENCE_LAB_I"@ {
            Some(TradeSymbol::ModuleScienceLabI)
        } else if text == "MODULE_JUMP_DRIVE_I"@ {
            Some(TradeSymbol::ModuleJumpDriveI)
        } else if text == "MODULE_JUMP_DRIVE_II"@ {
            Some(TradeSymbol::ModuleJumpDriveIi)
        } else if text == "MODULE_JUMP_DRIVE_III"@ {
            Some(TradeSymbol::ModuleJumpDriveIii)
        } else if text == "MODULE_WARP_DRIVE_I"@ {
            Some(TradeSymbol::ModuleWarpDriveI)
        } else if text == "MODULE_WARP_DRIVE_II"@ {
            Some(TradeSymbol::ModuleWarpDriveIi)
        } else if text == "MODULE_WARP_DRIVE_III"@ {
            Some(TradeSymbol::ModuleWarpDriveIii)
        } else if text == "MODULE_SHIELD_GENERATOR_I"@ {
            Some(TradeSymbol::ModuleShieldGeneratorI)
        } else if text == "MODULE_SHIELD_GENERATOR_II"@ {
            Some(TradeSymbol::ModuleShieldGeneratorIi)
        } else if text == "MOUNT_GAS_SIPHON_I"@ {
            Some(TradeSymbol::MountGasSiphonI)
        } else if text == "MOUNT_GAS_SIPHON_II"@ {
            Some(TradeSymbol::MountGasSiphonIi)
        } else if text == "MOUNT_GAS_SIPHON_III"@ {
            Some(TradeSymbol::MountGasSiphonIii)
        } else if text == "MOUNT_SURVEYOR_I"@ {
            Some(TradeSymbol::MountSurveyorI)
        } else if text == "MOUNT_SURVEYOR_II"@ {
            Some(TradeSymbol::MountSurveyorIi)
        } else if text == "MOUNT_SURVEYOR_III"@ {
            Some(TradeSymbol::MountSurveyorIii)
        } else if text == "MOUNT_SENSOR_ARRAY_I"@ {
            Some(TradeSymbol::MountSensorArrayI)
        } else if text == "MOUNT_SENSOR_ARRAY_II"@ {
            Some(TradeSymbol::MountSensorArrayIi)
        } else if text == "MOUNT_SENSOR_ARRAY_III"@ {
            Some(TradeSymbol::MountSensorArrayIii)
        } else if text == "MOUNT_MINING_LASER_I"@ {
            Some(TradeSymbol::MountMiningLaserI)
        } else if text == "MOUNT_MINING_LASER_II"@ {
            Some(TradeSymbol::MountMiningLaserIi)
        } else if text == "MOUNT_MINING_LASER_III"@ {
            Some(TradeSymbol::MountMiningLaserIii)
        } else if text == "MOUNT_LASER_CANNON_I"@ {
            Some(TradeSymbol::MountLaserCannonI)
        } else if text == "MOUNT_MISSILE_LAUNCHER_I"@ {
            Some(TradeSymbol::MountMissileLauncherI)
        } else if text == "MOUNT_TURRET_I"@ {
            Some(TradeSymbol::MountTurretI)
        } else {
            None
        }
    }

    open spec fn family() -> Seq<char> {
        "TradeSymbol"@
    }

    fn encode(&self) -> (s: &'static str) {
        match self {
            TradeSymbol::PreciousStones => "PRECIOUS_STONES",
            TradeSymbol::QuartzSand => "QUARTZ_SAND",
            TradeSymbol::SiliconCrystals => "SILICON_CRYSTALS",
            TradeSymbol::AmmoniaIce => "AMMONIA_ICE",
            TradeSymbol::LiquidHydrogen => "LIQUID_HYDROGEN",
            TradeSymbol::LiquidNitrogen => "LIQUID_NITROGEN",
            TradeSymbol::IceWater => "ICE_WATER",
            TradeSymbol::ExoticMatter => "EXOTIC_MATTER",
            TradeSymbol::AdvancedCircuitry => "ADVANCED_CIRCUITRY",
            TradeSymbol::GravitonEmitters => "GRAVITON_EMITTERS",
            TradeSymbol::Iron => "IRON",
            TradeSymbol::IronOre => "IRON_ORE",
            TradeSymbol::Copper => "COPPER",
            TradeSymbol::CopperOre => "COPPER_ORE",
            TradeSymbol::Aluminum => "ALUMINUM",
            TradeSymbol::AluminumOre => "ALUMINUM_ORE",
            TradeSymbol::Silver => "SILVER",
            TradeSymbol::SilverOre => "SILVER_ORE",
            TradeSymbol::Gold => "GOLD",
            TradeSymbol::GoldOre => "GOLD_ORE",
            TradeSymbol::Platinum => "PLATINUM",
            TradeSymbol::PlatinumOre => "PLATINUM_ORE",
            TradeSymbol::Diamonds => "DIAMONDS",
            TradeSymbol::Uranite => "URANITE",
            TradeSymbol::UraniteOre => "URANITE_ORE",
            TradeSymbol::Meritium => "MERITIUM",
            TradeSymbol::MeritiumOre => "MERITIUM_ORE",
            TradeSymbol::Hydrocarbon => "HYDROCARBON",
            TradeSymbol::Antimatter => "ANTIMATTER",
            TradeSymbol::Fertilizers => "FERTILIZERS",
            TradeSymbol::Fabrics => "FABRICS",
            TradeSymbol::Food => "FOOD",
            TradeSymbol::Jewelry => "JEWELRY",
            TradeSymbol::Machinery => "MACHINERY",
            TradeSymbol::Firearms => "FIREARMS",
            TradeSymbol::AssaultRifles => "ASSAULT_RIFLES",
            TradeSymbol::MilitaryEquipment => "MILITARY_EQUIPMENT",
            TradeSymbol::Explosives => "EXPLOSIVES",
            TradeSymbol::LabInstruments => "LAB_INSTRUMENTS",
            TradeSymbol::Ammunition => "AMMUNITION",
            TradeSymbol::Electronics => "ELECTRONICS",
            TradeSymbol::ShipPlating => "SHIP_PLATING",
            TradeSymbol::Equipment => "EQUIPMENT",
            TradeSymbol::Fuel => "FUEL",
            TradeSymbol::Medicine => "MEDICINE",
            TradeSymbol::Drugs => "DRUGS",
            TradeSymbol::Clothing => "CLOTHING",
            TradeSymbol::Microprocessors => "MICROPROCESSORS",
            TradeSymbol::Plastics => "PLASTICS",
            TradeSymbol::Polynucleotides => "POLYNUCLEOTIDES",
            TradeSymbol::Biocomposites => "BIOCOMPOSITES",
            TradeSymbol::Nanobots => "NANOBOTS",
            TradeSymbol::AiMainframes => "AI_MAINFRAMES",
            TradeSymbol::QuantumDrives => "QUANTUM_DRIVES",
            TradeSymbol::RoboticDrones => "ROBOTIC_DRONES",
            TradeSymbol::CyberImplants => "CYBER_IMPLANTS",
            TradeSymbol::GeneTherapeutics => "GENE_THERAPEUTICS",
            TradeSymbol::NeuralChips => "NEURAL_CHIPS",
            TradeSymbol::MoodRegulators => "MOOD_REGULATORS",
            TradeSymbol::ViralAgents => "VIRAL_AGENTS",
            TradeSymbol::MicroFusionGenerators => "MICRO_FUSION_GENERATORS",
            TradeSymbol::Supergrains => "SUPERGRAINS",
            TradeSymbol::LaserRifles => "LASER_RIFLES",
            TradeSymbol::Holographics => "HOLOGRAPHICS",
            TradeSymbol::ShipSalvage => "SHIP_SALVAGE",
            TradeSymbol::RelicTech => "RELIC_TECH",
            TradeSymbol::NovelLifeforms => "NOVEL_LIFEFORMS",
            TradeSymbol::BotanicalSpecimens => "BOTANICAL_SPECIMENS",
            TradeSymbol::CulturalArtifacts => "CULTURAL_ARTIFACTS",
            TradeSymbol::ReactorSolarI => "REACTOR_SOLAR_I",
            TradeSymbol::ReactorFusionI => "REACTOR_FUSION_I",
            TradeSymbol::ReactorFissionI => "REACTOR_FISSION_I",
            TradeSymbol::ReactorChemicalI => "REACTOR_CHEMICAL_I",
            TradeSymbol::ReactorAntimatterI => "REACTOR_ANTIMATTER_I",
            TradeSymbol::EngineImpulseDriveI => "ENGINE_IMPULSE_DRIVE_I",
            TradeSymbol::EngineIonDriveI => "ENGINE_ION_DRIVE_I",
            TradeSymbol::EngineIonDriveIi => "ENGINE_ION_DRIVE_II",
            TradeSymbol::EngineHyperDriveI => "ENGINE_HYPER_DRIVE_I",
            TradeSymbol::ModuleMineralProcessorI => "MODULE_MINERAL_PROCESSOR_I",
            TradeSymbol::ModuleCargoHoldI => "MODULE_CARGO_HOLD_I",
            TradeSymbol::ModuleCrewQuartersI => "MODULE_CREW_QUARTERS_I",
            TradeSymbol::ModuleEnvoyQuartersI => "MODULE_ENVOY_QUARTERS_I",
            TradeSymbol::ModulePassengerCabinI => "MODULE_PASSENGER_CABIN_I",
            TradeSymbol::ModuleMicroRefineryI => "MODULE_MICRO_REFINERY_I",
            TradeSymbol::ModuleOreRefineryI => "MODULE_ORE_REFINERY_I",
            TradeSymbol::ModuleFuelRefineryI => "MODULE_FUEL_REFINERY_I",
            TradeSymbol::ModuleScienceLabI => "MODULE_SCIENCE_LAB_I",
            TradeSymbol::ModuleJumpDriveI => "MODULE_JUMP_DRIVE_I",
            TradeSymbol::ModuleJumpDriveIi => "MODULE_JUMP_DRIVE_II",
            TradeSymbol::ModuleJumpDriveIii => "MODULE_JUMP_DRIVE_III",
            TradeSymbol::ModuleWarpDriveI => "MODULE_WARP_DRIVE_I",
            TradeSymbol::ModuleWarpDriveIi => "MODULE_WARP_DRIVE_II",
            TradeSymbol::ModuleWarpDriveIii => "MODULE_WARP_DRIVE_III",
            TradeSymbol::ModuleShieldGeneratorI => "MODULE_SHIELD_GENERATOR_I",
            TradeSymbol::ModuleShieldGeneratorIi => "MODULE_SHIELD_GENERATOR_II",
            TradeSymbol::MountGasSiphonI => "MOUNT_GAS_SIPHON_I",
            TradeSymbol::MountGasSiphonIi => "MOUNT_GAS_SIPHON_II",
            TradeSymbol::MountGasSiphonIii => "MOUNT_GAS_SIPHON_III",
            TradeSymbol::MountSurveyorI => "MOUNT_SURVEYOR_I",
            TradeSymbol::MountSurveyorIi => "MOUNT_SURVEYOR_II",
            TradeSymbol::MountSurveyorIii => "MOUNT_SURVEYOR_III",
            TradeSymbol::MountSensorArrayI => "MOUNT_SENSOR_ARRAY_I",
            TradeSymbol::MountSensorArrayIi => "MOUNT_SENSOR_ARRAY_II",
            TradeSymbol::MountSensorArrayIii => "MOUNT_SENSOR_ARRAY_III",
            TradeSymbol::MountMiningLaserI => "MOUNT_MINING_LASER_I",
            TradeSymbol::MountMiningLaserIi => "MOUNT_MINING_LASER_II",
            TradeSymbol::MountMiningLaserIii => "MOUNT_MINING_LASER_III",
            TradeSymbol::MountLaserCannonI => "MOUNT_LASER_CANNON_I",
            TradeSymbol::MountMissileLauncherI => "MOUNT_MISSILE_LAUNCHER_I",
            TradeSymbol::MountTurretI => "MOUNT_TURRET_I",
        }
    }

    fn variant(text: &str) -> (r: Option<TradeSymbol>) {
        if same_text(text, "PRECIOUS_STONES") {
            Some(TradeSymbol::PreciousStones)
        } else if same_text(text, "QUARTZ_SAND") {
            Some(TradeSymbol::QuartzSand)
        } else if same_text(text, "SILICON_CRYSTALS") {
            Some(TradeSymbol::SiliconCrystals)
        } else if same_text(text, "AMMONIA_ICE") {
            Some(TradeSymbol::AmmoniaIce)
        } else if same_text(text, "LIQUID_HYDROGEN") {
            Some(TradeSymbol::LiquidHydrogen)
        } else if same_text(text, "LIQUID_NITROGEN") {
            Some(TradeSymbol::LiquidNitrogen)
        } else if same_text(text, "ICE_WATER") {
            Some(TradeSymbol::IceWater)
        } else if same_text(text, "EXOTIC_MATTER") {
            Some(TradeSymbol::ExoticMatter)
        } else if same_text(text, "ADVANCED_CIRCUITRY") {
            Some(TradeSymbol::AdvancedCircuitry)
        } else if same_text(text, "GRAVITON_EMITTERS") {
            Some(TradeSymbol::GravitonEmitters)
        } else if same_text(text, "IRON") {
            Some(TradeSymbol::Iron)
        } else if same_text(text, "IRON_ORE") {
            Some(TradeSymbol::IronOre)
        } else if same_text(text, "COPPER") {
            Some(TradeSymbol::Copper)
        } else if same_text(text, "COPPER_ORE") {
            Some(TradeSymbol::CopperOre)
        } else if same_text(text, "ALUMINUM") {
            Some(TradeSymbol::Aluminum)
        } else if same_text(text, "ALUMINUM_ORE") {
            Some(TradeSymbol::AluminumOre)
        } else if same_text(text, "SILVER") {
            Some(TradeSymbol::Silver)
        } else if same_text(text, "SILVER_ORE") {
            Some(TradeSymbol::SilverOre)
        } else if same_text(text, "GOLD") {
            Some(TradeSymbol::Gold)
        } else if same_text(text, "GOLD_ORE") {
            Some(TradeSymbol::GoldOre)
        } else if same_text(text, "PLATINUM") {
            Some(TradeSymbol::Platinum)
        } else if same_text(text, "PLATINUM_ORE") {
            Some(TradeSymbol::PlatinumOre)
        } else if same_text(text, "DIAMONDS") {
            Some(TradeSymbol::Diamonds)
        } else if same_text(text, "URANITE") {
            Some(TradeSymbol::Uranite)
        } else if same_text(text, "URANITE_ORE") {
            Some(TradeSymbol::UraniteOre)
        } else if same_text(text, "MERITIUM") {
            Some(TradeSymbol::Meritium)
        } else if same_text(text, "MERITIUM_ORE") {
            Some(TradeSymbol::MeritiumOre)
        } else if same_text(text, "HYDROCARBON") {
            Some(TradeSymbol::Hydrocarbon)
        } else if same_text(text, "ANTIMATTER") {
            Some(TradeSymbol::Antimatter)
        } else if same_text(text, "FERTILIZERS") {
            Some(TradeSymbol::Fertilizers)
        } else if same_text(text, "FABRICS") {
            Some(TradeSymbol::Fabrics)
        } else if same_text(text, "FOOD") {
            Some(TradeSymbol::Food)
        } else if same_text(text, "JEWELRY") {
            Some(TradeSymbol::Jewelry)
        } else if same_text(text, "MACHINERY") {
            Some(TradeSymbol::Machinery)
        } else if same_text(text, "FIREARMS") {
            Some(TradeSymbol::Firearms)
        } else if same_text(text, "ASSAULT_RIFLES") {
            Some(TradeSymbol::AssaultRifles)
        } else if same_text(text, "MILITARY_EQUIPMENT") {
            Some(TradeSymbol::MilitaryEquipment)
        } else if same_text(text, "EXPLOSIVES") {
            Some(TradeSymbol::Explosives)
        } else if same_text(text, "LAB_INSTRUMENTS") {
            Some(TradeSymbol::LabInstruments)
        } else if same_text(text, "AMMUNITION") {
            Some(TradeSymbol::Ammunition)
        } else if same_text(text, "ELECTRONICS") {
            Some(TradeSymbol::Electronics)
        } else if same_text(text, "SHIP_PLATING") {
            Some(TradeSymbol::ShipPlating)
        } else if same_text(text, "EQUIPMENT") {
            Some(TradeSymbol::Equipment)
        } else if same_text(text, "FUEL") {
            Some(TradeSymbol::Fuel)
        } else if same_text(text, "MEDICINE") {
            Some(TradeSymbol::Medicine)
        } else if same_text(text, "DRUGS") {
            Some(TradeSymbol::Drugs)
        } else if same_text(text, "CLOTHING") {
            Some(TradeSymbol::Clothing)
        } else if same_text(text, "MICROPROCESSORS") {
            Some(TradeSymbol::Microprocessors)
        } else if same_text(text, "PLASTICS") {
            Some(TradeSymbol::Plastics)
        } else if same_text(text, "POLYNUCLEOTIDES") {
            Some(TradeSymbol::Polynucleotides)
        } else if same_text(text, "BIOCOMPOSITES") {
            Some(TradeSymbol::Biocomposites)
        } else if same_text(text, "NANOBOTS") {
            Some(TradeSymbol::Nanobots)
        } else if same_text(text, "AI_MAINFRAMES") {
            Some(TradeSymbol::AiMainframes)
        } else if same_text(text, "QUANTUM_DRIVES") {
            Some(TradeSymbol::QuantumDrives)
        } else if same_text(text, "ROBOTIC_DRONES") {
            Some(TradeSymbol::RoboticDrones)
        } else if same_text(text, "CYBER_IMPLANTS") {
            Some(TradeSymbol::CyberImplants)
        } else if same_text(text, "GENE_THERAPEUTICS") {
            Some(TradeSymbol::GeneTherapeutics)
        } else if same_text(text, "NEURAL_CHIPS") {
            Some(TradeSymbol::NeuralChips)
        } else if same_text(text, "MOOD_REGULATORS") {
            Some(TradeSymbol::MoodRegulators)
        } else if same_text(text, "VIRAL_AGENTS") {
            Some(TradeSymbol::ViralAgents)
        } else if same_text(text, "MICRO_FUSION_GENERATORS") {
            Some(TradeSymbol::MicroFusionGenerators)
        } else if same_text(text, "SUPERGRAINS") {
            Some(TradeSymbol::Supergrains)
        } else if same_text(text, "LASER_RIFLES") {
            Some(TradeSymbol::LaserRifles)
        } else if same_text(text, "HOLOGRAPHICS") {
            Some(TradeSymbol::Holographics)
        } else if same_text(text, "SHIP_SALVAGE") {
            Some(TradeSymbol::ShipSalvage)
        } else if same_text(text, "RELIC_TECH") {
            Some(TradeSymbol::RelicTech)
        } else if same_text(text, "NOVEL_LIFEFORMS") {
            Some(TradeSymbol::NovelLifeforms)
        } else if same_text(text, "BOTANICAL_SPECIMENS") {
            Some(TradeSymbol::BotanicalSpecimens)
        } else if same_text(text, "CULTURAL_ARTIFACTS") {
            Some(TradeSymbol::CulturalArtifacts)
        } else if same_text(text, "REACTOR_SOLAR_I") {
            Some(TradeSymbol::ReactorSolarI)
        } else if same_text(text, "REACTOR_FUSION_I") {
            Some(TradeSymbol::ReactorFusionI)
        } else if same_text(text, "REACTOR_FISSION_I") {
            Some(TradeSymbol::ReactorFissionI)
        } else if same_text(text, "REACTOR_CHEMICAL_I") {
            Some(TradeSymbol::ReactorChemicalI)
        } else if same_text(text, "REACTOR_ANTIMATTER_I") {
            Some(TradeSymbol::ReactorAntimatterI)
        } else if same_text(text, "ENGINE_IMPULSE_DRIVE_I") {
            Some(TradeSymbol::EngineImpulseDriveI)
        } else if same_text(text, "ENGINE_ION_DRIVE_I") {
            Some(TradeSymbol::EngineIonDriveI)
        } else if same_text(text, "ENGINE_ION_DRIVE_II") {
            Some(TradeSymbol::EngineIonDriveIi)
        } else if same_text(text, "ENGINE_HYPER_DRIVE_I") {
            Some(TradeSymbol::EngineHyperDriveI)
        } else if same_text(text, "MODULE_MINERAL_PROCESSOR_I") {
            Some(TradeSymbol::ModuleMineralProcessorI)
        } else if same_text(text, "MODULE_CARGO_HOLD_I") {
            Some(TradeSymbol::ModuleCargoHoldI)
        } else if same_text(text, "MODULE_CREW_QUARTERS_I") {
            Some(TradeSymbol::ModuleCrewQuartersI)
        } else if same_text(text, "MODULE_ENVOY_QUARTERS_I") {
            Some(TradeSymbol::ModuleEnvoyQuartersI)
        } else if same_text(text, "MODULE_PASSENGER_CABIN_I") {
            Some(TradeSymbol::ModulePassengerCabinI)
        } else if same_text(text, "MODULE_MICRO_REFINERY_I") {
            Some(TradeSymbol::ModuleMicroRefineryI)
        } else if same_text(text, "MODULE_ORE_REFINERY_I") {
            Some(TradeSymbol::ModuleOreRefineryI)
        } else if same_text(text, "MODULE_FUEL_REFINERY_I") {
            Some(TradeSymbol::ModuleFuelRefineryI)
        } else if same_text(text, "MODULE_SCIENCE_LAB_I") {
            Some(TradeSymbol::ModuleScienceLabI)
        } else if same_text(text, "MODULE_JUMP_DRIVE_I") {
            Some(TradeSymbol::ModuleJumpDriveI)
        } else if same_text(text, "MODULE_JUMP_DRIVE_II") {
            Some(TradeSymbol::ModuleJumpDriveIi)
        } else if same_text(text, "MODULE_JUMP_DRIVE_III") {
            Some(TradeSymbol::ModuleJumpDriveIii)
        } else if same_text(text, "MODULE_WARP_DRIVE_I") {
            Some(TradeSymbol::ModuleWarpDriveI)
        } else if same_text(text, "MODULE_WARP_DRIVE_II") {
            Some(TradeSymbol::ModuleWarpDriveIi)
        } else if same_text(text, "MODULE_WARP_DRIVE_III") {
            Some(TradeSymbol::ModuleWarpDriveIii)
        } else if same_text(text, "MODULE_SHIELD_GENERATOR_I") {
            Some(TradeSymbol::ModuleShieldGeneratorI)
        } else if same_text(text, "MODULE_SHIELD_GENERATOR_II") {
            Some(TradeSymbol::ModuleShieldGeneratorIi)
        } else if same_text(text, "MOUNT_GAS_SIPHON_I") {
            Some(TradeSymbol::MountGasSiphonI)
        } else if same_text(text, "MOUNT_GAS_SIPHON_II") {
            Some(TradeSymbol::MountGasSiphonIi)
        } else if same_text(text, "MOUNT_GAS_SIPHON_III") {
            Some(TradeSymbol::MountGasSiphonIii)
        } else if same_text(text, "MOUNT_SURVEYOR_I") {
            Some(TradeSymbol::MountSurveyorI)
        } else if same_text(text, "MOUNT_SURVEYOR_II") {
            Some(TradeSymbol::MountSurveyorIi)
        } else if same_text(text, "MOUNT_SURVEYOR_III") {
            Some(TradeSymbol::MountSurveyorIii)
        } else if same_text(text, "MOUNT_SENSOR_ARRAY_I") {
            Some(TradeSymbol::MountSensorArrayI)
        } else if same_text(text, "MOUNT_SENSOR_ARRAY_II") {
            Some(TradeSymbol::MountSensorArrayIi)
        } else if same_text(text, "MOUNT_SENSOR_ARRAY_III") {
            Some(TradeSymbol::MountSensorArrayIii)
        } else if same_text(text, "MOUNT_MINING_LASER_I") {
            Some(TradeSymbol::MountMiningLaserI)
        } else if same_text(text, "MOUNT_MINING_LASER_II") {
            Some(TradeSymbol::MountMiningLaserIi)
        } else if same_text(text, "MOUNT_MINING_LASER_III") {
            Some(TradeSymbol::MountMiningLaserIii)
        } else if same_text(text, "MOUNT_LASER_CANNON_I") {
            Some(TradeSymbol::MountLaserCannonI)
        } else if same_text(text, "MOUNT_MISSILE_LAUNCHER_I") {
            Some(TradeSymbol::MountMissileLauncherI)
        } else if same_text(text, "MOUNT_TURRET_I") {
            Some(TradeSymbol::MountTurretI)
        } else {
            None
        }
    }

    fn family_name() -> (s: &'static str) {
        "TradeSymbol"
    }

    proof fn lemma_decode_encode(v: TradeSymbol) {
        reveal_strlit("PRECIOUS_STONES");
        reveal_strlit("QUARTZ_SAND");
        reveal_strlit("SILICON_CRYSTALS");
        reveal_strlit("AMMONIA_ICE");
        reveal_strlit("LIQUID_HYDROGEN");
        reveal_strlit("LIQUID_NITROGEN");
        reveal_strlit("ICE_WATER");
        reveal_strlit("EXOTIC_MATTER");
        reveal_strlit("ADVANCED_CIRCUITRY");
        reveal_strlit("GRAVITON_EMITTERS");
        reveal_strlit("IRON");
        reveal_strlit("IRON_ORE");
        reveal_strlit("COPPER");
        reveal_strlit("COPPER_ORE");
        reveal_strlit("ALUMINUM");
        reveal_strlit("ALUMINUM_ORE");
        reveal_strlit("SILVER");
        reveal_strlit("SILVER_ORE");
        reveal_strlit("GOLD");
        reveal_strlit("GOLD_ORE");
        reveal_strlit("PLATINUM");
        reveal_strlit("PLATINUM_ORE");
        reveal_strlit("DIAMONDS");
        reveal_strlit("URANITE");
        reveal_strlit("URANITE_ORE");
        reveal_strlit("MERITIUM");
        reveal_strlit("MERITIUM_ORE");
        reveal_strlit("HYDROCARBON");
        reveal_strlit("ANTIMATTER");
        reveal_strlit("FERTILIZERS");
        reveal_strlit("FABRICS");
        reveal_strlit("FOOD");
        reveal_strlit("JEWELRY");
        reveal_strlit("MACHINERY");
        reveal_strlit("FIREARMS");
        reveal_strlit("ASSAULT_RIFLES");
        reveal_strlit("MILITARY_EQUIPMENT");
        reveal_strlit("EXPLOSIVES");
        reveal_strlit("LAB_INSTRUMENTS");
        reveal_strlit("AMMUNITION");
        reveal_strlit("ELECTRONICS");
        reveal_strlit("SHIP_PLATING");
        reveal_strlit("EQUIPMENT");
        reveal_strlit("FUEL");
        reveal_strlit("MEDICINE");
        reveal_strlit("DRUGS");
        reveal_strlit("CLOTHING");
        reveal_strlit("MICROPROCESSORS");
        reveal_strlit("PLASTICS");
        reveal_strlit("POLYNUCLEOTIDES");
        reveal_strlit("BIOCOMPOSITES");
        reveal_strlit("NANOBOTS");
        reveal_strlit("AI_MAINFRAMES");
        reveal_strlit("QUANTUM_DRIVES");
        reveal_strlit("ROBOTIC_DRONES");
        reveal_strlit("CYBER_IMPLANTS");
        reveal_strlit("GENE_THERAPEUTICS");
        reveal_strlit("NEURAL_CHIPS");
        reveal_strlit("MOOD_REGULATORS");
        reveal_strlit("VIRAL_AGENTS");
        reveal_strlit("MICRO_FUSION_GENERATORS");
        reveal_strlit("SUPERGRAINS");
        reveal_strlit("LASER_RIFLES");
        reveal_strlit("HOLOGRAPHICS");
        reveal_strlit("SHIP_SALVAGE");
        reveal_strlit("RELIC_TECH");
        reveal_strlit("NOVEL_LIFEFORMS");
        reveal_strlit("BOTANICAL_SPECIMENS");
        reveal_strlit("CULTURAL_ARTIFACTS");
        reveal_strlit("REACTOR_SOLAR_I");
        reveal_strlit("REACTOR_FUSION_I");
        reveal_strlit("REACTOR_FISSION_I");
        reveal_strlit("REACTOR_CHEMICAL_I");
        reveal_strlit("REACTOR_ANTIMATTER_I");
        reveal_strlit("ENGINE_IMPULSE_DRIVE_I");
        reveal_strlit("ENGINE_ION_DRIVE_I");
        reveal_strlit("ENGINE_ION_DRIVE_II");
        reveal_strlit("ENGINE_HYPER_DRIVE_I");
        reveal_strlit("MODULE_MINERAL_PROCESSOR_I");
        reveal_strlit("MODULE_CARGO_HOLD_I");
        reveal_strlit("MODULE_CREW_QUARTERS_I");
        reveal_strlit("MODULE_ENVOY_QUARTERS_I");
        reveal_strlit("MODULE_PASSENGER_CABIN_I");
        reveal_strlit("MODULE_MICRO_REFINERY_I");
        reveal_strlit("MODULE_ORE_REFINERY_I");
        reveal_strlit("MODULE_FUEL_REFINERY_I");
        reveal_strlit("MODULE_SCIENCE_LAB_I");
        reveal_strlit("MODULE_JUMP_DRIVE_I");
        reveal_strlit("MODULE_JUMP_DRIVE_II");
        reveal_strlit("MODULE_JUMP_DRIVE_III");
        reveal_strlit("MODULE_WARP_DRIVE_I");
        reveal_strlit("MODULE_WARP_DRIVE_II");
        reveal_strlit("MODULE_WARP_DRIVE_III");
        reveal_strlit("MODULE_SHIELD_GENERATOR_I");
        reveal_strlit("MODULE_SHIELD_GENERATOR_II");
        reveal_strlit("MOUNT_GAS_SIPHON_I");
        reveal_strlit("MOUNT_GAS_SIPHON_II");
        reveal_strlit("MOUNT_GAS_SIPHON_III");
        reveal_strlit("MOUNT_SURVEYOR_I");
        reveal_strlit("MOUNT_SURVEYOR_II");
        reveal_strlit("MOUNT_SURVEYOR_III");
        reveal_strlit("MOUNT_SENSOR_ARRAY_I");
        reveal_strlit("MOUNT_SENSOR_ARRAY_II");
        reveal_strlit("MOUNT_SENSOR_ARRAY_III");
        reveal_strlit("MOUNT_MINING_LASER_I");
        reveal_strlit("MOUNT_MINING_LASER_II");
        reveal_strlit("MOUNT_MINING_LASER_III");
        reveal_strlit("MOUNT_LASER_CANNON_I");
        reveal_strlit("MOUNT_MISSILE_LAUNCHER_I");
        reveal_strlit("MOUNT_TURRET_I");
        assert("PRECIOUS_STONES"@.len() == 15 && "PRECIOUS_STONES"@[0] == 'P' && "PRECIOUS_STONES"@[1] == 'R');
        assert("QUARTZ_SAND"@.len() == 11 && "QUARTZ_SAND"@[0] == 'Q');
        assert("SILICON_CRYSTALS"@.len() == 16 && "SILICON_CRYSTALS"@[0] == 'S');
        assert("AMMONIA_ICE"@.len() == 11 && "AMMONIA_ICE"@[0] == 'A');
        assert("LIQUID_HYDROGEN"@.len() == 15 && "LIQUID_HYDROGEN"@[0] == 'L' && "LIQUID_HYDROGEN"@[1] == 'I' && "LIQUID_HYDROGEN"@[7] == 'H');
        assert("LIQUID_NITROGEN"@.len() == 15 && "LIQUID_NITROGEN"@[0] == 'L' && "LIQUID_NITROGEN"@[1] == 'I' && "LIQUID_NITROGEN"@[7] == 'N');
        assert("ICE_WATER"@.len() == 9 && "ICE_WATER"@[0] == 'I');
        assert("EXOTIC_MATTER"@.len() == 13 && "EXOTIC_MATTER"@[0] == 'E');
        assert("ADVANCED_CIRCUITRY"@.len() == 18 && "ADVANCED_CIRCUITRY"@[0] == 'A');
        assert("GRAVITON_EMITTERS"@.len() == 17 && "GRAVITON_EMITTERS"@[0] == 'G' && "GRAVITON_EMITTERS"@[1] == 'R');
        assert("IRON"@.len() == 4 && "IRON"@[0] == 'I');
        assert("IRON_ORE"@.len() == 8 && "IRON_ORE"@[0] == 'I');
        assert("COPPER"@.len() == 6 && "COPPER"@[0] == 'C');
        assert("COPPER_ORE"@.len() == 10 && "COPPER_ORE"@[0] == 'C');
        assert("ALUMINUM"@.len() == 8 && "ALUMINUM"@[0] == 'A');
        assert("ALUMINUM_ORE"@.len() == 12 && "ALUMINUM_ORE"@[0] == 'A');
        assert("SILVER"@.len() == 6 && "SILVER"@[0] == 'S');
        assert("SILVER_ORE"@.len() == 10 && "SILVER_ORE"@[0] == 'S');
        assert("GOLD"@.len() == 4 && "GOLD"@[0] == 'G');
        assert("GOLD_ORE"@.len() == 8 && "GOLD_ORE"@[0] == 'G');
        assert("PLATINUM"@.len() == 8 && "PLATINUM"@[0] == 'P' && "PLATINUM"@[3] == 'T');
        assert("PLATINUM_ORE"@.len() == 12 && "PLATINUM_ORE"@[0] == 'P');
        assert("DIAMONDS"@.len() == 8 && "DIAMONDS"@[0] == 'D');
        assert("URANITE"@.len() == 7 && "URANITE"@[0] == 'U');
        assert("URANITE_ORE"@.len() == 11 && "URANITE_ORE"@[0] == 'U');
        assert("MERITIUM"@.len() == 8 && "MERITIUM"@[0] == 'M' && "MERITIUM"@[2] == 'R');
        assert("MERITIUM_ORE"@.len() == 12 && "MERITIUM_ORE"@[0] == 'M');
        assert("HYDROCARBON"@.len() == 11 && "HYDROCARBON"@[0] == 'H');
        assert("ANTIMATTER"@.len() == 10 && "ANTIMATTER"@[0] == 'A' && "ANTIMATTER"@[1] == 'N');
        assert("FERTILIZERS"@.len() == 11 && "FERTILIZERS"@[0] == 'F');
        assert("FABRICS"@.len() == 7 && "FABRICS"@[0] == 'F');
        assert("FOOD"@.len() == 4 && "FOOD"@[0] == 'F' && "FOOD"@[1] == 'O');
        assert("JEWELRY"@.len() == 7 && "JEWELRY"@[0] == 'J');
        assert("MACHINERY"@.len() == 9 && "MACHINERY"@[0] == 'M');
        assert("FIREARMS"@.len() == 8 && "FIREARMS"@[0] == 'F');
        assert("ASSAULT_RIFLES"@.len() == 14 && "ASSAULT_RIFLES"@[0] == 'A');
        assert("MILITARY_EQUIPMENT"@.len() == 18 && "MILITARY_EQUIPMENT"@[0] == 'M' && "MILITARY_EQUIPMENT"@[1] == 'I');
        assert("EXPLOSIVES"@.len() == 10 && "EXPLOSIVES"@[0] == 'E');
        assert("LAB_INSTRUMENTS"@.len() == 15 && "LAB_INSTRUMENTS"@[0] == 'L' && "LAB_INSTRUMENTS"@[1] == 'A');
        assert("AMMUNITION"@.len() == 10 && "AMMUNITION"@[0] == 'A' && "AMMUNITION"@[1] == 'M');
        assert("ELECTRONICS"@.len() == 11 && "ELECTRONICS"@[0] == 'E');
        assert("SHIP_PLATING"@.len() == 12 && "SHIP_PLATING"@[0] == 'S' && "SHIP_PLATING"@[5] == 'P');
        assert("EQUIPMENT"@.len() == 9 && "EQUIPMENT"@[0] == 'E');
        assert("FUEL"@.len() == 4 && "FUEL"@[0] == 'F' && "FUEL"@[1] == 'U');
        assert("MEDICINE"@.len() == 8 && "MEDICINE"@[0] == 'M' && "MEDICINE"@[2] == 'D');
        assert("DRUGS"@.len() == 5);
        assert("CLOTHING"@.len() == 8 && "CLOTHING"@[0] == 'C');
        assert("MICROPROCESSORS"@.len() == 15 && "MICROPROCESSORS"@[0] == 'M' && "MICROPROCESSORS"@[1] == 'I');
        assert("PLASTICS"@.len() == 8 && "PLASTICS"@[0] == 'P' && "PLASTICS"@[3] == 'S');
        assert("POLYNUCLEOTIDES"@.len() == 15 && "POLYNUCLEOTIDES"@[0] == 'P' && "POLYNUCLEOTIDES"@[1] == 'O');
        assert("BIOCOMPOSITES"@.len() == 13 && "BIOCOMPOSITES"@[0] == 'B');
        assert("NANOBOTS"@.len() == 8 && "NANOBOTS"@[0] == 'N');
        assert("AI_MAINFRAMES"@.len() == 13 && "AI_MAINFRAMES"@[0] == 'A');
        assert("QUANTUM_DRIVES"@.len() == 14 && "QUANTUM_DRIVES"@[0] == 'Q');
        assert("ROBOTIC_DRONES"@.len() == 14 && "ROBOTIC_DRONES"@[0] == 'R');
        assert("CYBER_IMPLANTS"@.len() == 14 && "CYBER_IMPLANTS"@[0] == 'C');
        assert("GENE_THERAPEUTICS"@.len() == 17 && "GENE_THERAPEUTICS"@[0] == 'G' && "GENE_THERAPEUTICS"@[1] == 'E');
        assert("NEURAL_CHIPS"@.len() == 12 && "NEURAL_CHIPS"@[0] == 'N');
        assert("MOOD_REGULATORS"@.len() == 15 && "MOOD_REGULATORS"@[0] == 'M' && "MOOD_REGULATORS"@[1] == 'O');
        assert("VIRAL_AGENTS"@.len() == 12 && "VIRAL_AGENTS"@[0] == 'V');
        assert("MICRO_FUSION_GENERATORS"@.len() == 23 && "MICRO_FUSION_GENERATORS"@[1] == 'I');
        assert("SUPERGRAINS"@.len() == 11 && "SUPERGRAINS"@[0] == 'S');
        assert("LASER_RIFLES"@.len() == 12 && "LASER_RIFLES"@[0] == 'L');
        assert("HOLOGRAPHICS"@.len() == 12 && "HOLOGRAPHICS"@[0] == 'H');
        assert("SHIP_SALVAGE"@.len() == 12 && "SHIP_SALVAGE"@[0] == 'S' && "SHIP_SALVAGE"@[5] == 'S');
        assert("RELIC_TECH"@.len() == 10 && "RELIC_TECH"@[0] == 'R');
        assert("NOVEL_LIFEFORMS"@.len() == 15 && "NOVEL_LIFEFORMS"@[0] == 'N');
        assert("BOTANICAL_SPECIMENS"@.len() == 19 && "BOTANICAL_SPECIMENS"@[0] == 'B');
        assert("CULTURAL_ARTIFACTS"@.len() == 18 && "CULTURAL_ARTIFACTS"@[0] == 'C');
        assert("REACTOR_SOLAR_I"@.len() == 15 && "REACTOR_SOLAR_I"@[0] == 'R');
        assert("REACTOR_FUSION_I"@.len() == 16 && "REACTOR_FUSION_I"@[0] == 'R');
        assert("REACTOR_FISSION_I"@.len() == 17 && "REACTOR_FISSION_I"@[0] == 'R');
        assert("REACTOR_CHEMICAL_I"@.len() == 18 && "REACTOR_CHEMICAL_I"@[0] == 'R');
        assert("REACTOR_ANTIMATTER_I"@.len() == 20 && "REACTOR_ANTIMATTER_I"@[0] == 'R');
        assert("ENGINE_IMPULSE_DRIVE_I"@.len() == 22 && "ENGINE_IMPULSE_DRIVE_I"@[0] == 'E');
        assert("ENGINE_ION_DRIVE_I"@.len() == 18 && "ENGINE_ION_DRIVE_I"@[0] == 'E');
        assert("ENGINE_ION_DRIVE_II"@.len() == 19 && "ENGINE_ION_DRIVE_II"@[0] == 'E');
        assert("ENGINE_HYPER_DRIVE_I"@.len() == 20 && "ENGINE_HYPER_DRIVE_I"@[0] == 'E');
        assert("MODULE_MINERAL_PROCESSOR_I"@.len() == 26 && "MODULE_MINERAL_PROCESSOR_I"@[7] == 'M');
        assert("MODULE_CARGO_HOLD_I"@.len() == 19 && "MODULE_CARGO_HOLD_I"@[0] == 'M' && "MODULE_CARGO_HOLD_I"@[2] == 'D' && "MODULE_CARGO_HOLD_I"@[7] == 'C');
        assert("MODULE_CREW_QUARTERS_I"@.len() == 22 && "MODULE_CREW_QUARTERS_I"@[0] == 'M' && "MODULE_CREW_QUARTERS_I"@[2] == 'D' && "MODULE_CREW_QUARTERS_I"@[7] == 'C');
        assert("MODULE_ENVOY_QUARTERS_I"@.len() == 23 && "MODULE_ENVOY_QUARTERS_I"@[1] == 'O' && "MODULE_ENVOY_QUARTERS_I"@[7] == 'E');
        assert("MODULE_PASSENGER_CABIN_I"@.len() == 24 && "MODULE_PASSENGER_CABIN_I"@[2] == 'D');
        assert("MODULE_MICRO_REFINERY_I"@.len() == 23 && "MODULE_MICRO_REFINERY_I"@[1] == 'O' && "MODULE_MICRO_REFINERY_I"@[7] == 'M');
        assert("MODULE_ORE_REFINERY_I"@.len() == 21 && "MODULE_ORE_REFINERY_I"@[2] == 'D' && "MODULE_ORE_REFINERY_I"@[7] == 'O');
        assert("MODULE_FUEL_REFINERY_I"@.len() == 22 && "MODULE_FUEL_REFINERY_I"@[0] == 'M' && "MODULE_FUEL_REFINERY_I"@[2] == 'D' && "MODULE_FUEL_REFINERY_I"@[7] == 'F');
        assert("MODULE_SCIENCE_LAB_I"@.len() == 20 && "MODULE_SCIENCE_LAB_I"@[0] == 'M' && "MODULE_SCIENCE_LAB_I"@[2] == 'D' && "MODULE_SCIENCE_LAB_I"@[7] == 'S');
        assert("MODULE_JUMP_DRIVE_I"@.len() == 19 && "MODULE_JUMP_DRIVE_I"@[0] == 'M' && "MODULE_JUMP_DRIVE_I"@[2] == 'D' && "MODULE_JUMP_DRIVE_I"@[7] == 'J');
        assert("MODULE_JUMP_DRIVE_II"@.len() == 20 && "MODULE_JUMP_DRIVE_II"@[0] == 'M' && "MODULE_JUMP_DRIVE_II"@[2] == 'D' && "MODULE_JUMP_DRIVE_II"@[7] == 'J');
        assert("MODULE_JUMP_DRIVE_III"@.len() == 21 && "MODULE_JUMP_DRIVE_III"@[2] == 'D' && "MODULE_JUMP_DRIVE_III"@[7] == 'J');
        assert("MODULE_WARP_DRIVE_I"@.len() == 19 && "MODULE_WARP_DRIVE_I"@[0] == 'M' && "MODULE_WARP_DRIVE_I"@[2] == 'D' && "MODULE_WARP_DRIVE_I"@[7] == 'W');
        assert("MODULE_WARP_DRIVE_II"@.len() == 20 && "MODULE_WARP_DRIVE_II"@[0] == 'M' && "MODULE_WARP_DRIVE_II"@[2] == 'D' && "MODULE_WARP_DRIVE_II"@[7] == 'W');
        assert("MODULE_WARP_DRIVE_III"@.len() == 21 && "MODULE_WARP_DRIVE_III"@[2] == 'D' && "MODULE_WARP_DRIVE_III"@[7] == 'W');
        assert("MODULE_SHIELD_GENERATOR_I"@.len() == 25);
        assert("MODULE_SHIELD_GENERATOR_II"@.len() == 26 && "MODULE_SHIELD_GENERATOR_II"@[7] == 'S');
        assert("MOUNT_GAS_SIPHON_I"@.len() == 18 && "MOUNT_GAS_SIPHON_I"@[0] == 'M' && "MOUNT_GAS_SIPHON_I"@[1] == 'O' && "MOUNT_GAS_SIPHON_I"@[6] == 'G');
        assert("MOUNT_GAS_SIPHON_II"@.len() == 19 && "MOUNT_GAS_SIPHON_II"@[0] == 'M' && "MOUNT_GAS_SIPHON_II"@[2] == 'U');
        assert("MOUNT_GAS_SIPHON_III"@.len() == 20 && "MOUNT_GAS_SIPHON_III"@[0] == 'M' && "MOUNT_GAS_SIPHON_III"@[2] == 'U' && "MOUNT_GAS_SIPHON_III"@[6] == 'G');
        assert("MOUNT_SURVEYOR_I"@.len() == 16 && "MOUNT_SURVEYOR_I"@[0] == 'M');
        assert("MOUNT_SURVEYOR_II"@.len() == 17 && "MOUNT_SURVEYOR_II"@[0] == 'M');
        assert("MOUNT_SURVEYOR_III"@.len() == 18 && "MOUNT_SURVEYOR_III"@[0] == 'M' && "MOUNT_SURVEYOR_III"@[1] == 'O' && "MOUNT_SURVEYOR_III"@[6] == 'S');
        assert("MOUNT_SENSOR_ARRAY_I"@.len() == 20 && "MOUNT_SENSOR_ARRAY_I"@[0] == 'M' && "MOUNT_SENSOR_ARRAY_I"@[2] == 'U' && "MOUNT_SENSOR_ARRAY_I"@[6] == 'S');
        assert("MOUNT_SENSOR_ARRAY_II"@.len() == 21 && "MOUNT_SENSOR_ARRAY_II"@[2] == 'U' && "MOUNT_SENSOR_ARRAY_II"@[6] == 'S');
        assert("MOUNT_SENSOR_ARRAY_III"@.len() == 22 && "MOUNT_SENSOR_ARRAY_III"@[0] == 'M' && "MOUNT_SENSOR_ARRAY_III"@[2] == 'U' && "MOUNT_SENSOR_ARRAY_III"@[6] == 'S');
        assert("MOUNT_MINING_LASER_I"@.len() == 20 && "MOUNT_MINING_LASER_I"@[0] == 'M' && "MOUNT_MINING_LASER_I"@[2] == 'U' && "MOUNT_MINING_LASER_I"@[6] == 'M');
        assert("MOUNT_MINING_LASER_II"@.len() == 21 && "MOUNT_MINING_LASER_II"@[2] == 'U' && "MOUNT_MINING_LASER_II"@[6] == 'M');
        assert("MOUNT_MINING_LASER_III"@.len() == 22 && "MOUNT_MINING_LASER_III"@[0] == 'M' && "MOUNT_MINING_LASER_III"@[2] == 'U' && "MOUNT_MINING_LASER_III"@[6] == 'M');
        assert("MOUNT_LASER_CANNON_I"@.len() == 20 && "MOUNT_LASER_CANNON_I"@[0] == 'M' && "MOUNT_LASER_CANNON_I"@[2] == 'U' && "MOUNT_LASER_CANNON_I"@[6] == 'L');
        assert("MOUNT_MISSILE_LAUNCHER_I"@.len() == 24 && "MOUNT_MISSILE_LAUNCHER_I"@[2] == 'U');
        assert("MOUNT_TURRET_I"@.len() == 14 && "MOUNT_TURRET_I"@[0] == 'M');
    }

    proof fn lemma_encode_decode(text: Seq<char>) {
    }
}

/// A trait that describes a waypoint.
#[derive(Clone, Copy, Debug, PartialEq, Eq, Hash, Structural)]
pub enum WaypointTraitSymbol {
    Uncharted,
    Marketplace,
    Shipyard,
    Outpost,
    ScatteredSettlements,
    SprawlingCities,
    MegaStructures,
    Overcrowded,
    HighTech,
    Corrupt,
    Bureaucratic,
    TradingHub,
    Industrial,
    BlackMarket,
    ResearchFacility,
    MilitaryBase,
    SurveillanceOutpost,
    ExplorationOutpost,
    MineralDeposits,
    CommonMetalDeposits,
    PreciousMetalDeposits,
    RareMetalDeposits,
    MethanePools,
    IceCrystals,
    ExplosiveGases,
    StrongMagnetosphere,
    VibrantAuroras,
    SaltFlats,
    Canyons,
    PerpetualDaylight,
    PerpetualOvercast,
    DrySeabeds,
    MagmaSeas,
    Supervolcanoes,
    AshClouds,
    VastRuins,
    MutatedFlora,
    Terraformed,
    ExtremeTemperatures,
    ExtremePressure,
    DiverseLife,
    ScarceLife,
    Fossils,
    WeakGravity,
    StrongGravity,
    CrushingGravity,
    ToxicAtmosphere,
    CorrosiveAtmosphere,
    BreathableAtmosphere,
    Jovian,
    Rocky,
    Volcanic,
    Frozen,
    Swamp,
    Barren,
    Temperate,
    Jungle,
    Ocean,
    Stripped,
}

impl Symbol for WaypointTraitSymbol {
    open spec fn wire_text(&self) -> Seq<char> {
        match self {
            WaypointTraitSymbol::Uncharted => "UNCHARTED"@,
            WaypointTraitSymbol::Marketplace => "MARKETPLACE"@,
            WaypointTraitSymbol::Shipyard => "SHIPYARD"@,
            WaypointTraitSymbol::Outpost => "OUTPOST"@,
            WaypointTraitSymbol::ScatteredSettlements => "SCATTERED_SETTLEMENTS"@,
            WaypointTraitSymbol::SprawlingCities => "SPRAWLING_CITIES"@,
            WaypointTraitSymbol::MegaStructures => "MEGA_STRUCTURES"@,
            WaypointTraitSymbol::Overcrowded => "OVERCROWDED"@,
            WaypointTraitSymbol::HighTech => "HIGH_TECH"@,
            WaypointTraitSymbol::Corrupt => "CORRUPT"@,
            WaypointTraitSymbol::Bureaucratic => "BUREAUCRATIC"@,
            WaypointTraitSymbol::TradingHub => "TRADING_HUB"@,
            WaypointTraitSymbol::Industrial => "INDUSTRIAL"@,
            WaypointTraitSymbol::BlackMarket => "BLACK_MARKET"@,
            WaypointTraitSymbol::ResearchFacility => "RESEARCH_FACILITY"@,
            WaypointTraitSymbol::MilitaryBase => "MILITARY_BASE"@,
            WaypointTraitSymbol::SurveillanceOutpost => "SURVEILLANCE_OUTPOST"@,
            WaypointTraitSymbol::ExplorationOutpost => "EXPLORATION_OUTPOST"@,
            WaypointTraitSymbol::MineralDeposits => "MINERAL_DEPOSITS"@,
            WaypointTraitSymbol::CommonMetalDeposits => "COMMON_METAL_DEPOSITS"@,
            WaypointTraitSymbol::PreciousMetalDeposits => "PRECIOUS_METAL_DEPOSITS"@,
            WaypointTraitSymbol::RareMetalDeposits => "RARE_METAL_DEPOSITS"@,
            WaypointTraitSymbol::MethanePools => "METHANE_POOLS"@,
            WaypointTraitSymbol::IceCrystals => "ICE_CRYSTALS"@,
            WaypointTraitSymbol::ExplosiveGases => "EXPLOSIVE_GASES"@,
            WaypointTraitSymbol::StrongMagnetosphere => "STRONG_MAGNETOSPHERE"@,
            WaypointTraitSymbol::VibrantAuroras => "VIBRANT_AURORAS"@,
            WaypointTraitSymbol::SaltFlats => "SALT_FLATS"@,
            WaypointTraitSymbol::Canyons => "CANYONS"@,
            WaypointTraitSymbol::PerpetualDaylight => "PERPETUAL_DAYLIGHT"@,
            WaypointTraitSymbol::PerpetualOvercast => "PERPETUAL_OVERCAST"@,
            WaypointTraitSymbol::DrySeabeds => "DRY_SEABEDS"@,
            WaypointTraitSymbol::MagmaSeas => "MAGMA_SEAS"@,
            WaypointTraitSymbol::Supervolcanoes => "SUPERVOLCANOES"@,
            WaypointTraitSymbol::AshClouds => "ASH_CLOUDS"@,
            WaypointTraitSymbol::VastRuins => "VAST_RUINS"@,
            WaypointTraitSymbol::MutatedFlora => "MUTATED_FLORA"@,
            WaypointTraitSymbol::Terraformed => "TERRAFORMED"@,
            WaypointTraitSymbol::ExtremeTemperatures => "EXTREME_TEMPERATURES"@,
            WaypointTraitSymbol::ExtremePressure => "EXTREME_PRESSURE"@,
            WaypointTraitSymbol::DiverseLife => "DIVERSE_LIFE"@,
            WaypointTraitSymbol::ScarceLife => "SCARCE_LIFE"@,
            WaypointTraitSymbol::Fossils => "FOSSILS"@,
            WaypointTraitSymbol::WeakGravity => "WEAK_GRAVITY"@,
            WaypointTraitSymbol::StrongGravity => "STRONG_GRAVITY"@,
            WaypointTraitSymbol::CrushingGravity => "CRUSHING_GRAVITY"@,
            WaypointTraitSymbol::ToxicAtmosphere => "TOXIC_ATMOSPHERE"@,
            WaypointTraitSymbol::CorrosiveAtmosphere => "CORROSIVE_ATMOSPHERE"@,
            WaypointTraitSymbol::BreathableAtmosphere => "BREATHABLE_ATMOSPHERE"@,
            WaypointTraitSymbol::Jovian => "JOVIAN"@,
            WaypointTraitSymbol::Rocky => "ROCKY"@,
            WaypointTraitSymbol::Volcanic => "VOLCANIC"@,
            WaypointTraitSymbol::Frozen => "FROZEN"@,
            WaypointTraitSymbol::Swamp => "SWAMP"@,
            WaypointTraitSymbol::Barren => "BARREN"@,
            WaypointTraitSymbol::Temperate => "TEMPERATE"@,
            WaypointTraitSymbol::Jungle => "JUNGLE"@,
            WaypointTraitSymbol::Ocean => "OCEAN"@,
            WaypointTraitSymbol::Stripped => "STRIPPED"@,
        }
    }

    open spec fn named(text: Seq<char>) -> Option<WaypointTraitSymbol> {
        if text == "UNCHARTED"@ {
            Some(WaypointTraitSymbol::Uncharted)
        } else if text == "MARKETPLACE"@ {
            Some(WaypointTraitSymbol::Marketplace)
        } else if text == "SHIPYARD"@ {
            Some(WaypointTraitSymbol::Shipyard)
        } else if text == "OUTPOST"@ {
            Some(WaypointTraitSymbol::Outpost)
        } else if text == "SCATTERED_SETTLEMENTS"@ {
            Some(WaypointTraitSymbol::ScatteredSettlements)
        } else if text == "SPRAWLING_CITIES"@ {
            Some(WaypointTraitSymbol::SprawlingCities)
        } else if text == "MEGA_STRUCTURES"@ {
            Some(WaypointTraitSymbol::MegaStructures)
        } else if text == "OVERCROWDED"@ {
            Some(WaypointTraitSymbol::Overcrowded)
        } else if text == "HIGH_TECH"@ {
            Some(WaypointTraitSymbol::HighTech)
        } else if text == "CORRUPT"@ {
            Some(WaypointTraitSymbol::Corrupt)
        } else if text == "BUREAUCRATIC"@ {
            Some(WaypointTraitSymbol::Bureaucratic)
        } else if text == "TRADING_HUB"@ {
            Some(WaypointTraitSymbol::TradingHub)
        } else if text == "INDUSTRIAL"@ {
            Some(WaypointTraitSymbol::Industrial)
        } else if text == "BLACK_MARKET"@ {
            Some(WaypointTraitSymbol::BlackMarket)
        } else if text == "RESEARCH_FACILITY"@ {
            Some(WaypointTraitSymbol::ResearchFacility)
        } else if text == "MILITARY_BASE"@ {
            Some(WaypointTraitSymbol::MilitaryBase)
        } else if text == "SURVEILLANCE_OUTPOST"@ {
            Some(WaypointTraitSymbol::SurveillanceOutpost)
        } else if text == "EXPLORATION_OUTPOST"@ {
            Some(WaypointTraitSymbol::ExplorationOutpost)
        } else if text == "MINERAL_DEPOSITS"@ {
            Some(WaypointTraitSymbol::MineralDeposits)
        } else if text == "COMMON_METAL_DEPOSITS"@ {
            Some(WaypointTraitSymbol::CommonMetalDeposits)
        } else if text == "PRECIOUS_METAL_DEPOSITS"@ {
            Some(WaypointTraitSymbol::PreciousMetalDeposits)
        } else if text == "RARE_METAL_DEPOSITS"@ {
            Some(WaypointTraitSymbol::RareMetalDeposits)
        } else if text == "METHANE_POOLS"@ {
            Some(WaypointTraitSymbol::MethanePools)
        } else if text == "ICE_CRYSTALS"@ {
            Some(WaypointTraitSymbol::IceCrystals)
        } else if text == "EXPLOSIVE_GASES"@ {
            Some(WaypointTraitSymbol::ExplosiveGases)
        } else if text == "STRONG_MAGNETOSPHERE"@ {
            Some(WaypointTraitSymbol::StrongMagnetosphere)
        } else if text == "VIBRANT_AURORAS"@ {
            Some(WaypointTraitSymbol::VibrantAuroras)
        } else if text == "SALT_FLATS"@ {
            Some(WaypointTraitSymbol::SaltFlats)
        } else if text == "CANYONS"@ {
            Some(WaypointTraitSymbol::Canyons)
        } else if text == "PERPETUAL_DAYLIGHT"@ {
            Some(WaypointTraitSymbol::PerpetualDaylight)
        } else if text == "PERPETUAL_OVERCAST"@ {
            Some(WaypointTraitSymbol::PerpetualOvercast)
        } else if text == "DRY_SEABEDS"@ {
            Some(WaypointTraitSymbol::DrySeabeds)
        } else if text == "MAGMA_SEAS"@ {
            Some(WaypointTraitSymbol::MagmaSeas)
        } else if text == "SUPERVOLCANOES"@ {
            Some(WaypointTraitSymbol::Supervolcanoes)
        } else if text == "ASH_CLOUDS"@ {
            Some(WaypointTraitSymbol::AshClouds)
        } else if text == "VAST_RUINS"@ {
            Some(WaypointTraitSymbol::VastRuins)
        } else if text == "MUTATED_FLORA"@ {
            Some(WaypointTraitSymbol::MutatedFlora)
        } else if text == "TERRAFORMED"@ {
            Some(WaypointTraitSymbol::Terraformed)
        } else if text == "EXTREME_TEMPERATURES"@ {
            Some(WaypointTraitSymbol::ExtremeTemperatures)
        } else if text == "EXTREME_PRESSURE"@ {
            Some(WaypointTraitSymbol::ExtremePressure)
        } else if text == "DIVERSE_LIFE"@ {
            Some(WaypointTraitSymbol::DiverseLife)
        } else if text == "SCARCE_LIFE"@ {
            Some(WaypointTraitSymbol::ScarceLife)
        } else if text == "FOSSILS"@ {
            Some(WaypointTraitSymbol::Fossils)
        } else if text == "WEAK_GRAVITY"@ {
            Some(WaypointTraitSymbol::WeakGravity)
        } else if text == "STRONG_GRAVITY"@ {
            Some(WaypointTraitSymbol::StrongGravity)
        } else if text == "CRUSHING_GRAVITY"@ {
            Some(WaypointTraitSymbol::CrushingGravity)
        } else if text == "TOXIC_ATMOSPHERE"@ {
            Some(WaypointTraitSymbol::ToxicAtmosphere)
        } else if text == "CORROSIVE_ATMOSPHERE"@ {
            Some(WaypointTraitSymbol::CorrosiveAtmosphere)
        } else if text == "BREATHABLE_ATMOSPHERE"@ {
            Some(WaypointTraitSymbol::BreathableAtmosphere)
        } else if text == "JOVIAN"@ {
            Some(WaypointTraitSymbol::Jovian)
        } else if text == "ROCKY"@ {
            Some(WaypointTraitSymbol::Rocky)
        } else if text == "VOLCANIC"@ {
            Some(WaypointTraitSymbol::Volcanic)
        } else if text == "FROZEN"@ {
            Some(WaypointTraitSymbol::Frozen)
        } else if text == "SWAMP"@ {
            Some(WaypointTraitSymbol::Swamp)
        } else if text == "BARREN"@ {
            Some(WaypointTraitSymbol::Barren)
        } else if text == "TEMPERATE"@ {
            Some(WaypointTraitSymbol::Temperate)
        } else if text == "JUNGLE"@ {
            Some(WaypointTraitSymbol::Jungle)
        } else if text == "OCEAN"@ {
            Some(WaypointTraitSymbol::Ocean)
        } else if text == "STRIPPED"@ {
            Some(WaypointTraitSymbol::Stripped)
        } else {
            None
        }
    }

    open spec fn family() -> Seq<char> {
        "WaypointTraitSymbol"@
    }

    fn encode(&self) -> (s: &'static str) {
        match self {
            WaypointTraitSymbol::Uncharted => "UNCHARTED",
            WaypointTraitSymbol::Marketplace => "MARKETPLACE",
            WaypointTraitSymbol::Shipyard => "SHIPYARD",
            WaypointTraitSymbol::Outpost => "OUTPOST",
            WaypointTraitSymbol::ScatteredSettlements => "SCATTERED_SETTLEMENTS",
            WaypointTraitSymbol::SprawlingCities => "SPRAWLING_CITIES",
            WaypointTraitSymbol::MegaStructures => "MEGA_STRUCTURES",
            WaypointTraitSymbol::Overcrowded => "OVERCROWDED",
            WaypointTraitSymbol::HighTech => "HIGH_TECH",
            WaypointTraitSymbol::Corrupt => "CORRUPT",
            WaypointTraitSymbol::Bureaucratic => "BUREAUCRATIC",
            WaypointTraitSymbol::TradingHub => "TRADING_HUB",
            WaypointTraitSymbol::Industrial => "INDUSTRIAL",
            WaypointTraitSymbol::BlackMarket => "BLACK_MARKET",
            WaypointTraitSymbol::ResearchFacility => "RESEARCH_FACILITY",
            WaypointTraitSymbol::MilitaryBase => "MILITARY_BASE",
            WaypointTraitSymbol::SurveillanceOutpost => "SURVEILLANCE_OUTPOST",
            WaypointTraitSymbol::ExplorationOutpost => "EXPLORATION_OUTPOST",
            WaypointTraitSymbol::MineralDeposits => "MINERAL_DEPOSITS",
            WaypointTraitSymbol::CommonMetalDeposits => "COMMON_METAL_DEPOSITS",
            WaypointTraitSymbol::PreciousMetalDeposits => "PRECIOUS_METAL_DEPOSITS",
            WaypointTraitSymbol::RareMetalDeposits => "RARE_METAL_DEPOSITS",
            WaypointTraitSymbol::MethanePools => "METHANE_POOLS",
            WaypointTraitSymbol::IceCrystals => "ICE_CRYSTALS",
            WaypointTraitSymbol::ExplosiveGases => "EXPLOSIVE_GASES",
            WaypointTraitSymbol::StrongMagnetosphere => "STRONG_MAGNETOSPHERE",
            WaypointTraitSymbol::VibrantAuroras => "VIBRANT_AURORAS",
            WaypointTraitSymbol::SaltFlats => "SALT_FLATS",
            WaypointTraitSymbol::Canyons => "CANYONS",
            WaypointTraitSymbol::PerpetualDaylight => "PERPETUAL_DAYLIGHT",
            WaypointTraitSymbol::PerpetualOvercast => "PERPETUAL_OVERCAST",
            WaypointTraitSymbol::DrySeabeds => "DRY_SEABEDS",
            WaypointTraitSymbol::MagmaSeas => "MAGMA_SEAS",
            WaypointTraitSymbol::Supervolcanoes => "SUPERVOLCANOES",
            WaypointTraitSymbol::AshClouds => "ASH_CLOUDS",
            WaypointTraitSymbol::VastRuins => "VAST_RUINS",
            WaypointTraitSymbol::MutatedFlora => "MUTATED_FLORA",
            WaypointTraitSymbol::Terraformed => "TERRAFORMED",
            WaypointTraitSymbol::ExtremeTemperatures => "EXTREME_TEMPERATURES",
            WaypointTraitSymbol::ExtremePressure => "EXTREME_PRESSURE",
            WaypointTraitSymbol::DiverseLife => "DIVERSE_LIFE",
            WaypointTraitSymbol::ScarceLife => "SCARCE_LIFE",
            WaypointTraitSymbol::Fossils => "FOSSILS",
            WaypointTraitSymbol::WeakGravity => "WEAK_GRAVITY",
            WaypointTraitSymbol::StrongGravity => "STRONG_GRAVITY",
            WaypointTraitSymbol::CrushingGravity => "CRUSHING_GRAVITY",
            WaypointTraitSymbol::ToxicAtmosphere => "TOXIC_ATMOSPHERE",
            WaypointTraitSymbol::CorrosiveAtmosphere => "CORROSIVE_ATMOSPHERE",
            WaypointTraitSymbol::BreathableAtmosphere => "BREATHABLE_ATMOSPHERE",
            WaypointTraitSymbol::Jovian => "JOVIAN",
            WaypointTraitSymbol::Rocky => "ROCKY",
            WaypointTraitSymbol::Volcanic => "VOLCANIC",
            WaypointTraitSymbol::Frozen => "FROZEN",
            WaypointTraitSymbol::Swamp => "SWAMP",
            WaypointTraitSymbol::Barren => "BARREN",
            WaypointTraitSymbol::Temperate => "TEMPERATE",
            WaypointTraitSymbol::Jungle => "JUNGLE",
            WaypointTraitSymbol::Ocean => "OCEAN",
            WaypointTraitSymbol::Stripped => "STRIPPED",
        }
    }

    fn variant(text: &str) -> (r: Option<WaypointTraitSymbol>) {
        if same_text(text, "UNCHARTED") {
            Some(WaypointTraitSymbol::Uncharted)
        } else if same_text(text, "MARKETPLACE") {
            Some(WaypointTraitSymbol::Marketplace)
        } else if same_text(text, "SHIPYARD") {
            Some(WaypointTraitSymbol::Shipyard)
        } else if same_text(text, "OUTPOST") {
            Some(WaypointTraitSymbol::Outpost)
        } else if same_text(text, "SCATTERED_SETTLEMENTS") {
            Some(WaypointTraitSymbol::ScatteredSettlements)
        } else if same_text(text, "SPRAWLING_CITIES") {
            Some(WaypointTraitSymbol::SprawlingCities)
        } else if same_text(text, "MEGA_STRUCTURES") {
            Some(WaypointTraitSymbol::MegaStructures)
        } else if same_text(text, "OVERCROWDED") {
            Some(WaypointTraitSymbol::Overcrowded)
        } else if same_text(text, "HIGH_TECH") {
            Some(WaypointTraitSymbol::HighTech)
        } else if same_text(text, "CORRUPT") {
            Some(WaypointTraitSymbol::Corrupt)
        } else if same_text(text, "BUREAUCRATIC") {
            Some(WaypointTraitSymbol::Bureaucratic)
        } else if same_text(text, "TRADING_HUB") {
            Some(WaypointTraitSymbol::TradingHub)
        } else if same_text(text, "INDUSTRIAL") {
            Some(WaypointTraitSymbol::Industrial)
        } else if same_text(text, "BLACK_MARKET") {
            Some(WaypointTraitSymbol::BlackMarket)
        } else if same_text(text, "RESEARCH_FACILITY") {
            Some(WaypointTraitSymbol::ResearchFacility)
        } else if same_text(text, "MILITARY_BASE") {
            Some(WaypointTraitSymbol::MilitaryBase)
        } else if same_text(text, "SURVEILLANCE_OUTPOST") {
            Some(WaypointTraitSymbol::SurveillanceOutpost)
        } else if same_text(text, "EXPLORATION_OUTPOST") {
            Some(WaypointTraitSymbol::ExplorationOutpost)
        } else if same_text(text, "MINERAL_DEPOSITS") {
            Some(WaypointTraitSymbol::MineralDeposits)
        } else if same_text(text, "COMMON_METAL_DEPOSITS") {
            Some(WaypointTraitSymbol::CommonMetalDeposits)
        } else if same_text(text, "PRECIOUS_METAL_DEPOSITS") {
            Some(WaypointTraitSymbol::PreciousMetalDeposits)
        } else if same_text(text, "RARE_METAL_DEPOSITS") {
            Some(WaypointTraitSymbol::RareMetalDeposits)
        } else if same_text(text, "METHANE_POOLS") {
            Some(WaypointTraitSymbol::MethanePools)
        } else if same_text(text, "ICE_CRYSTALS") {
            Some(WaypointTraitSymbol::IceCrystals)
        } else if same_text(text, "EXPLOSIVE_GASES") {
            Some(WaypointTraitSymbol::ExplosiveGases)
        } else if same_text(text, "STRONG_MAGNETOSPHERE") {
            Some(WaypointTraitSymbol::StrongMagnetosphere)
        } else if same_text(text, "VIBRANT_AURORAS") {
            Some(WaypointTraitSymbol::VibrantAuroras)
        } else if same_text(text, "SALT_FLATS") {
            Some(WaypointTraitSymbol::SaltFlats)
        } else if same_text(text, "CANYONS") {
            Some(WaypointTraitSymbol::Canyons)
        } else if same_text(text, "PERPETUAL_DAYLIGHT") {
            Some(WaypointTraitSymbol::PerpetualDaylight)
        } else if same_text(text, "PERPETUAL_OVERCAST") {
            Some(WaypointTraitSymbol::PerpetualOvercast)
        } else if same_text(text, "DRY_SEABEDS") {
            Some(WaypointTraitSymbol::DrySeabeds)
        } else if same_text(text, "MAGMA_SEAS") {
            Some(WaypointTraitSymbol::MagmaSeas)
        } else if same_text(text, "SUPERVOLCANOES") {
            Some(WaypointTraitSymbol::Supervolcanoes)
        } else if same_text(text, "ASH_CLOUDS") {
            Some(WaypointTraitSymbol::AshClouds)
        } else if same_text(text, "VAST_RUINS") {
            Some(WaypointTraitSymbol::VastRuins)
        } else if same_text(text, "MUTATED_FLORA") {
            Some(WaypointTraitSymbol::MutatedFlora)
        } else if same_text(text, "TERRAFORMED") {
            Some(WaypointTraitSymbol::Terraformed)
        } else if same_text(text, "EXTREME_TEMPERATURES") {
            Some(WaypointTraitSymbol::ExtremeTemperatures)
        } else if same_text(text, "EXTREME_PRESSURE") {
            Some(WaypointTraitSymbol::ExtremePressure)
        } else if same_text(text, "DIVERSE_LIFE") {
            Some(WaypointTraitSymbol::DiverseLife)
        } else if same_text(text, "SCARCE_LIFE") {
            Some(WaypointTraitSymbol::ScarceLife)
        } else if same_text(text, "FOSSILS") {
            Some(WaypointTraitSymbol::Fossils)
        } else if same_text(text, "WEAK_GRAVITY") {
            Some(WaypointTraitSymbol::WeakGravity)
        } else if same_text(text, "STRONG_GRAVITY") {
            Some(WaypointTraitSymbol::StrongGravity)
        } else if same_text(text, "CRUSHING_GRAVITY") {
            Some(WaypointTraitSymbol::CrushingGravity)
        } else if same_text(text, "TOXIC_ATMOSPHERE") {
            Some(WaypointTraitSymbol::ToxicAtmosphere)
        } else if same_text(text, "CORROSIVE_ATMOSPHERE") {
            Some(WaypointTraitSymbol::CorrosiveAtmosphere)
        } else if same_text(text, "BREATHABLE_ATMOSPHERE") {
            Some(WaypointTraitSymbol::BreathableAtmosphere)
        } else if same_text(text, "JOVIAN") {
            Some(WaypointTraitSymbol::Jovian)
        } else if same_text(text, "ROCKY") {
            Some(WaypointTraitSymbol::Rocky)
        } else if same_text(text, "VOLCANIC") {
            Some(WaypointTraitSymbol::Volcanic)
        } else if same_text(text, "FROZEN") {
            Some(WaypointTraitSymbol::Frozen)
        } else if same_text(text, "SWAMP") {
            Some(WaypointTraitSymbol::Swamp)
        } else if same_text(text, "BARREN") {
            Some(WaypointTraitSymbol::Barren)
        } else if same_text(text, "TEMPERATE") {
            Some(WaypointTraitSymbol::Temperate)
        } else if same_text(text, "JUNGLE") {
            Some(WaypointTraitSymbol::Jungle)
        } else if same_text(text, "OCEAN") {
            Some(WaypointTraitSymbol::Ocean)
        } else if same_text(text, "STRIPPED") {
            Some(WaypointTraitSymbol::Stripped)
        } else {
            None
        }
    }

    fn family_name() -> (s: &'static str) {
        "WaypointTraitSymbol"
    }

    proof fn lemma_decode_encode(v: WaypointTraitSymbol) {
        reveal_strlit("UNCHARTED");
        reveal_strlit("MARKETPLACE");
        reveal_strlit("SHIPYARD");
        reveal_strlit("OUTPOST");
        reveal_strlit("SCATTERED_SETTLEMENTS");
        reveal_strlit("SPRAWLING_CITIES");
        reveal_strlit("MEGA_STRUCTURES");
        reveal_strlit("OVERCROWDED");
        reveal_strlit("HIGH_TECH");
        reveal_strlit("CORRUPT");
        reveal_strlit("BUREAUCRATIC");
        reveal_strlit("TRADING_HUB");
        reveal_strlit("INDUSTRIAL");
        reveal_strlit("BLACK_MARKET");
        reveal_strlit("RESEARCH_FACILITY");
        reveal_strlit("MILITARY_BASE");
        reveal_strlit("SURVEILLANCE_OUTPOST");
        reveal_strlit("EXPLORATION_OUTPOST");
        reveal_strlit("MINERAL_DEPOSITS");
        reveal_strlit("COMMON_METAL_DEPOSITS");
        reveal_strlit("PRECIOUS_METAL_DEPOSITS");
        reveal_strlit("RARE_METAL_DEPOSITS");
        reveal_strlit("METHANE_POOLS");
        reveal_strlit("ICE_CRYSTALS");
        reveal_strlit("EXPLOSIVE_GASES");
        reveal_strlit("STRONG_MAGNETOSPHERE");
        reveal_strlit("VIBRANT_AURORAS");
        reveal_strlit("SALT_FLATS");
        reveal_strlit("CANYONS");
        reveal_strlit("PERPETUAL_DAYLIGHT");
        reveal_strlit("PERPETUAL_OVERCAST");
        reveal_strlit("DRY_SEABEDS");
        reveal_strlit("MAGMA_SEAS");
        reveal_strlit("SUPERVOLCANOES");
        reveal_strlit("ASH_CLOUDS");
        reveal_strlit("VAST_RUINS");
        reveal_strlit("MUTATED_FLORA");
        reveal_strlit("TERRAFORMED");
        reveal_strlit("EXTREME_TEMPERATURES");
        reveal_strlit("EXTREME_PRESSURE");
        reveal_strlit("DIVERSE_LIFE");
        reveal_strlit("SCARCE_LIFE");
        reveal_strlit("FOSSILS");
        reveal_strlit("WEAK_GRAVITY");
        reveal_strlit("STRONG_GRAVITY");
        reveal_strlit("CRUSHING_GRAVITY");
        reveal_strlit("TOXIC_ATMOSPHERE");
        reveal_strlit("CORROSIVE_ATMOSPHERE");
        reveal_strlit("BREATHABLE_ATMOSPHERE");
        reveal_strlit("JOVIAN");
        reveal_strlit("ROCKY");
        reveal_strlit("VOLCANIC");
        reveal_strlit("FROZEN");
        reveal_strlit("SWAMP");
        reveal_strlit("BARREN");
        reveal_strlit("TEMPERATE");
        reveal_strlit("JUNGLE");
        reveal_strlit("OCEAN");
        reveal_strlit("STRIPPED");
        assert("UNCHARTED"@.len() == 9 && "UNCHARTED"@[0] == 'U');
        assert("MARKETPLACE"@.len() == 11 && "MARKETPLACE"@[0] == 'M');
        assert("SHIPYARD"@.len() == 8 && "SHIPYARD"@[0] == 'S' && "SHIPYARD"@[1] == 'H');
        assert("OUTPOST"@.len() == 7 && "OUTPOST"@[0] == 'O');
        assert("SCATTERED_SETTLEMENTS"@.len() == 21 && "SCATTERED_SETTLEMENTS"@[0] == 'S');
        assert("SPRAWLING_CITIES"@.len() == 16 && "SPRAWLING_CITIES"@[0] == 'S');
        assert("MEGA_STRUCTURES"@.len() == 15 && "MEGA_STRUCTURES"@[0] == 'M');
        assert("OVERCROWDED"@.len() == 11 && "OVERCROWDED"@[0] == 'O');
        assert("HIGH_TECH"@.len() == 9 && "HIGH_TECH"@[0] == 'H');
        assert("CORRUPT"@.len() == 7 && "CORRUPT"@[0] == 'C' && "CORRUPT"@[1] == 'O');
        assert("BUREAUCRATIC"@.len() == 12 && "BUREAUCRATIC"@[0] == 'B' && "BUREAUCRATIC"@[1] == 'U');
        assert("TRADING_HUB"@.len() == 11 && "TRADING_HUB"@[0] == 'T' && "TRADING_HUB"@[1] == 'R');
        assert("INDUSTRIAL"@.len() == 10 && "INDUSTRIAL"@[0] == 'I');
        assert("BLACK_MARKET"@.len() == 12 && "BLACK_MARKET"@[0] == 'B' && "BLACK_MARKET"@[1] == 'L');
        assert("RESEARCH_FACILITY"@.len() == 17);
        assert("MILITARY_BASE"@.len() == 13 && "MILITARY_BASE"@[1] == 'I');
        assert("SURVEILLANCE_OUTPOST"@.len() == 20 && "SURVEILLANCE_OUTPOST"@[0] == 'S' && "SURVEILLANCE_OUTPOST"@[1] == 'U');
        assert("EXPLORATION_OUTPOST"@.len() == 19 && "EXPLORATION_OUTPOST"@[0] == 'E');
        assert("MINERAL_DEPOSITS"@.len() == 16 && "MINERAL_DEPOSITS"@[0] == 'M');
        assert("COMMON_METAL_DEPOSITS"@.len() == 21 && "COMMON_METAL_DEPOSITS"@[0] == 'C');
        assert("PRECIOUS_METAL_DEPOSITS"@.len() == 23);
        assert("RARE_METAL_DEPOSITS"@.len() == 19 && "RARE_METAL_DEPOSITS"@[0] == 'R');
        assert("METHANE_POOLS"@.len() == 13 && "METHANE_POOLS"@[1] == 'E');
        assert("ICE_CRYSTALS"@.len() == 12 && "ICE_CRYSTALS"@[0] == 'I');
        assert("EXPLOSIVE_GASES"@.len() == 15 && "EXPLOSIVE_GASES"@[0] == 'E');
        assert("STRONG_MAGNETOSPHERE"@.len() == 20 && "STRONG_MAGNETOSPHERE"@[0] == 'S' && "STRONG_MAGNETOSPHERE"@[1] == 'T');
        assert("VIBRANT_AURORAS"@.len() == 15 && "VIBRANT_AURORAS"@[0] == 'V');
        assert("SALT_FLATS"@.len() == 10 && "SALT_FLATS"@[0] == 'S');
        assert("CANYONS"@.len() == 7 && "CANYONS"@[0] == 'C' && "CANYONS"@[1] == 'A');
        assert("PERPETUAL_DAYLIGHT"@.len() == 18 && "PERPETUAL_DAYLIGHT"@[10] == 'D');
        assert("PERPETUAL_OVERCAST"@.len() == 18 && "PERPETUAL_OVERCAST"@[10] == 'O');
        assert("DRY_SEABEDS"@.len() == 11 && "DRY_SEABEDS"@[0] == 'D');
        assert("MAGMA_SEAS"@.len() == 10 && "MAGMA_SEAS"@[0] == 'M');
        assert("SUPERVOLCANOES"@.len() == 14 && "SUPERVOLCANOES"@[1] == 'U');
        assert("ASH_CLOUDS"@.len() == 10 && "ASH_CLOUDS"@[0] == 'A');
        assert("VAST_RUINS"@.len() == 10 && "VAST_RUINS"@[0] == 'V');
        assert("MUTATED_FLORA"@.len() == 13 && "MUTATED_FLORA"@[1] == 'U');
        assert("TERRAFORMED"@.len() == 11 && "TERRAFORMED"@[0] == 'T' && "TERRAFORMED"@[1] == 'E');
        assert("EXTREME_TEMPERATURES"@.len() == 20 && "EXTREME_TEMPERATURES"@[0] == 'E');
        assert("EXTREME_PRESSURE"@.len() == 16 && "EXTREME_PRESSURE"@[0] == 'E');
        assert("DIVERSE_LIFE"@.len() == 12 && "DIVERSE_LIFE"@[0] == 'D');
        assert("SCARCE_LIFE"@.len() == 11 && "SCARCE_LIFE"@[0] == 'S');
        assert("FOSSILS"@.len() == 7 && "FOSSILS"@[0] == 'F');
        assert("WEAK_GRAVITY"@.len() == 12 && "WEAK_GRAVITY"@[0] == 'W');
        assert("STRONG_GRAVITY"@.len() == 14 && "STRONG_GRAVITY"@[1] == 'T');
        assert("CRUSHING_GRAVITY"@.len() == 16 && "CRUSHING_GRAVITY"@[0] == 'C');
        assert("TOXIC_ATMOSPHERE"@.len() == 16 && "TOXIC_ATMOSPHERE"@[0] == 'T');
        assert("CORROSIVE_ATMOSPHERE"@.len() == 20 && "CORROSIVE_ATMOSPHERE"@[0] == 'C');
        assert("BREATHABLE_ATMOSPHERE"@.len() == 21 && "BREATHABLE_ATMOSPHERE"@[0] == 'B');
        assert("JOVIAN"@.len() == 6 && "JOVIAN"@[0] == 'J' && "JOVIAN"@[1] == 'O');
        assert("ROCKY"@.len() == 5 && "ROCKY"@[0] == 'R');
        assert("VOLCANIC"@.len() == 8 && "VOLCANIC"@[0] == 'V');
        assert("FROZEN"@.len() == 6 && "FROZEN"@[0] == 'F');
        assert("SWAMP"@.len() == 5 && "SWAMP"@[0] == 'S');
        assert("BARREN"@.len() == 6 && "BARREN"@[0] == 'B');
        assert("TEMPERATE"@.len() == 9 && "TEMPERATE"@[0] == 'T');
        assert("JUNGLE"@.len() == 6 && "JUNGLE"@[0] == 'J' && "JUNGLE"@[1] == 'U');
        assert("OCEAN"@.len() == 5 && "OCEAN"@[0] == 'O');
        assert("STRIPPED"@.len() == 8 && "STRIPPED"@[0] == 'S' && "STRIPPED"@[1] == 'T');
    }

    proof fn lemma_encode_decode(text: Seq<char>) {
    }
}

/// The kind of waypoint.
#[derive(Clone, Copy, Debug, PartialEq, Eq, Hash, Structural)]
pub enum WaypointType {
    Planet,
    GasGiant,
    Moon,
    OrbitalStation,
    JumpGate,
    AsteroidField,
    Nebula,
    DebrisField,
    GravityWell,
}

impl Symbol for WaypointType {
    open spec fn wire_text(&self) -> Seq<char> {
        match self {
            WaypointType::Planet => "PLANET"@,
            WaypointType::GasGiant => "GAS_GIANT"@,
            WaypointType::Moon => "MOON"@,
            WaypointType::OrbitalStation => "ORBITAL_STATION"@,
            WaypointType::JumpGate => "JUMP_GATE"@,
            WaypointType::AsteroidField => "ASTEROID_FIELD"@,
            WaypointType::Nebula => "NEBULA"@,
            WaypointType::DebrisField => "DEBRIS_FIELD"@,
            WaypointType::GravityWell => "GRAVITY_WELL"@,
        }
    }

    open spec fn named(text: Seq<char>) -> Option<WaypointType> {
        if text == "PLANET"@ {
            Some(WaypointType::Planet)
        } else if text == "GAS_GIANT"@ {
            Some(WaypointType::GasGiant)
        } else if text == "MOON"@ {
            Some(WaypointType::Moon)
        } else if text == "ORBITAL_STATION"@ {
            Some(WaypointType::OrbitalStation)
        } else if text == "JUMP_GATE"@ {
            Some(WaypointType::JumpGate)
        } else if text == "ASTEROID_FIELD"@ {
            Some(WaypointType::AsteroidField)
        } else if text == "NEBULA"@ {
            Some(WaypointType::Nebula)
        } else if text == "DEBRIS_FIELD"@ {
            Some(WaypointType::DebrisField)
        } else if text == "GRAVITY_WELL"@ {
            Some(WaypointType::GravityWell)
        } else {
            None
        }
    }

    open spec fn family() -> Seq<char> {
        "WaypointType"@
    }

    fn encode(&self) -> (s: &'static str) {
        match self {
            WaypointType::Planet => "PLANET",
            WaypointType::GasGiant => "GAS_GIANT",
            WaypointType::Moon => "MOON",
            WaypointType::OrbitalStation => "ORBITAL_STATION",
            WaypointType::JumpGate => "JUMP_GATE",
            WaypointType::AsteroidField => "ASTEROID_FIELD",
            WaypointType::Nebula => "NEBULA",
            WaypointType::DebrisField => "DEBRIS_FIELD",
            WaypointType::GravityWell => "GRAVITY_WELL",
        }
    }

    fn variant(text: &str) -> (r: Option<WaypointType>) {
        if same_text(text, "PLANET") {
            Some(WaypointType::Planet)
        } else if same_text(text, "GAS_GIANT") {
            Some(WaypointType::GasGiant)
        } else if same_text(text, "MOON") {
            Some(WaypointType::Moon)
        } else if same_text(text, "ORBITAL_STATION") {
            Some(WaypointType::OrbitalStation)
        } else if same_text(text, "JUMP_GATE") {
            Some(WaypointType::JumpGate)
        } else if same_text(text, "ASTEROID_FIELD") {
            Some(WaypointType::AsteroidField)
        } else if same_text(text, "NEBULA") {
            Some(WaypointType::Nebula)
        } else if same_text(text, "DEBRIS_FIELD") {
            Some(WaypointType::DebrisField)
        } else if same_text(text, "GRAVITY_WELL") {
            Some(WaypointType::GravityWell)
        } else {
            None
        }
    }

    fn family_name() -> (s: &'static str) {
        "WaypointType"
    }

    proof fn lemma_decode_encode(v: WaypointType) {
        reveal_strlit("PLANET");
        reveal_strlit("GAS_GIANT");
        reveal_strlit("MOON");
        reveal_strlit("ORBITAL_STATION");
        reveal_strlit("JUMP_GATE");
        reveal_strlit("ASTEROID_FIELD");
        reveal_strlit("NEBULA");
        reveal_strlit("DEBRIS_FIELD");
        reveal_strlit("GRAVITY_WELL");
        assert("PLANET"@.len() == 6 && "PLANET"@[0] == 'P');
        assert("GAS_GIANT"@.len() == 9 && "GAS_GIANT"@[0] == 'G');
        assert("MOON"@.len() == 4);
        assert("ORBITAL_STATION"@.len() == 15);
        assert("JUMP_GATE"@.len() == 9 && "JUMP_GATE"@[0] == 'J');
        assert("ASTEROID_FIELD"@.len() == 14);
        assert("NEBULA"@.len() == 6 && "NEBULA"@[0] == 'N');
        assert("DEBRIS_FIELD"@.len() == 12 && "DEBRIS_FIELD"@[0] == 'D');
        assert("GRAVITY_WELL"@.len() == 12 && "GRAVITY_WELL"@[0] == 'G');
    }

    proof fn lemma_encode_decode(text: Seq<char>) {
    }
}

/// A resource that a mount can extract.
#[derive(Clone, Copy, Debug, PartialEq, Eq, Hash, Structural)]
pub enum Deposits {
    QuartzSand,
    SiliconCrystals,
    PreciousStones,
    IceWater,
    AmmoniaIce,
    IronOre,
    CopperOre,
    SilverOre,
    AluminumOre,
    GoldOre,
    PlatinumOre,
    Diamonds,
    UraniteOre,
    MeritiumOre,
}

impl Symbol for Deposits {
    open spec fn wire_text(&self) -> Seq<char> {
        match self {
            Deposits::QuartzSand => "QUARTZ_SAND"@,
            Deposits::SiliconCrystals => "SILICON_CRYSTALS"@,
            Deposits::PreciousStones => "PRECIOUS_STONES"@,
            Deposits::IceWater => "ICE_WATER"@,
            Deposits::AmmoniaIce => "AMMONIA_ICE"@,
            Deposits::IronOre => "IRON_ORE"@,
            Deposits::CopperOre => "COPPER_ORE"@,
            Deposits::SilverOre => "SILVER_ORE"@,
            Deposits::AluminumOre => "ALUMINUM_ORE"@,
            Deposits::GoldOre => "GOLD_ORE"@,
            Deposits::PlatinumOre => "PLATINUM_ORE"@,
            Deposits::Diamonds => "DIAMONDS"@,
            Deposits::UraniteOre => "URANITE_ORE"@,
            Deposits::MeritiumOre => "MERITIUM_ORE"@,
        }
    }

    open spec fn named(text: Seq<char>) -> Option<Deposits> {
        if text == "QUARTZ_SAND"@ {
            Some(Deposits::QuartzSand)
        } else if text == "SILICON_CRYSTALS"@ {
            Some(Deposits::SiliconCrystals)
        } else if text == "PRECIOUS_STONES"@ {
            Some(Deposits::PreciousStones)
        } else if text == "ICE_WATER"@ {
            Some(Deposits::IceWater)
        } else if text == "AMMONIA_ICE"@ {
            Some(Deposits::AmmoniaIce)
        } else if text == "IRON_ORE"@ {
            Some(Deposits::IronOre)
        } else if text == "COPPER_ORE"@ {
            Some(Deposits::CopperOre)
        } else if text == "SILVER_ORE"@ {
            Some(Deposits::SilverOre)
        } else if text == "ALUMINUM_ORE"@ {
            Some(Deposits::AluminumOre)
        } else if text == "GOLD_ORE"@ {
            Some(Deposits::GoldOre)
        } else if text == "PLATINUM_ORE"@ {
            Some(Deposits::PlatinumOre)
        } else if text == "DIAMONDS"@ {
            Some(Deposits::Diamonds)
        } else if text == "URANITE_ORE"@ {
            Some(Deposits::UraniteOre)
        } else if text == "MERITIUM_ORE"@ {
            Some(Deposits::MeritiumOre)
        } else {
            None
        }
    }

    open spec fn family() -> Seq<char> {
        "Deposits"@
    }

    fn encode(&self) -> (s: &'static str) {
        match self {
            Deposits::QuartzSand => "QUARTZ_SAND",
            Deposits::SiliconCrystals => "SILICON_CRYSTALS",
            Deposits::PreciousStones => "PRECIOUS_STONES",
            Deposits::IceWater => "ICE_WATER",
            Deposits::AmmoniaIce => "AMMONIA_ICE",
            Deposits::IronOre => "IRON_ORE",
            Deposits::CopperOre => "COPPER_ORE",
            Deposits::SilverOre => "SILVER_ORE",
            Deposits::AluminumOre => "ALUMINUM_ORE",
            Deposits::GoldOre => "GOLD_ORE",
            Deposits::PlatinumOre => "PLATINUM_ORE",
            Deposits::Diamonds => "DIAMONDS",
            Deposits::UraniteOre => "URANITE_ORE",
            Deposits::MeritiumOre => "MERITIUM_ORE",
        }
    }

    fn variant(text: &str) -> (r: Option<Deposits>) {
        if same_text(text, "QUARTZ_SAND") {
            Some(Deposits::QuartzSand)
        } else if same_text(text, "SILICON_CRYSTALS") {
            Some(Deposits::SiliconCrystals)
        } else if same_text(text, "PRECIOUS_STONES") {
            Some(Deposits::PreciousStones)
        } else if same_text(text, "ICE_WATER") {
            Some(Deposits::IceWater)
        } else if same_text(text, "AMMONIA_ICE") {
            Some(Deposits::AmmoniaIce)
        } else if same_text(text, "IRON_ORE") {
            Some(Deposits::IronOre)
        } else if same_text(text, "COPPER_ORE") {
            Some(Deposits::CopperOre)
        } else if same_text(text, "SILVER_ORE") {
            Some(Deposits::SilverOre)
        } else if same_text(text, "ALUMINUM_ORE") {
            Some(Deposits::AluminumOre)
        } else if same_text(text, "GOLD_ORE") {
            Some(Deposits::GoldOre)
        } else if same_text(text, "PLATINUM_ORE") {
            Some(Deposits::PlatinumOre)
        } else if same_text(text, "DIAMONDS") {
            Some(Deposits::Diamonds)
        } else if same_text(text, "URANITE_ORE") {
            Some(Deposits::UraniteOre)
        } else if same_text(text, "MERITIUM_ORE") {
            Some(Deposits::MeritiumOre)
        } else {
            None
        }
    }

    fn family_name() -> (s: &'static str) {
        "Deposits"
    }

    proof fn lemma_decode_encode(v: Deposits) {
        reveal_strlit("QUARTZ_SAND");
        reveal_strlit("SILICON_CRYSTALS");
        reveal_strlit("PRECIOUS_STONES");
        reveal_strlit("ICE_WATER");
        reveal_strlit("AMMONIA_ICE");
        reveal_strlit("IRON_ORE");
        reveal_strlit("COPPER_ORE");
        reveal_strlit("SILVER_ORE");
        reveal_strlit("ALUMINUM_ORE");
        reveal_strlit("GOLD_ORE");
        reveal_strlit("PLATINUM_ORE");
        reveal_strlit("DIAMONDS");
        reveal_strlit("URANITE_ORE");
        reveal_strlit("MERITIUM_ORE");
        assert("QUARTZ_SAND"@.len() == 11 && "QUARTZ_SAND"@[0] == 'Q');
        assert("SILICON_CRYSTALS"@.len() == 16);
        assert("PRECIOUS_STONES"@.len() == 15);
        assert("ICE_WATER"@.len() == 9);
        assert("AMMONIA_ICE"@.len() == 11 && "AMMONIA_ICE"@[0] == 'A');
        assert("IRON_ORE"@.len() == 8 && "IRON_ORE"@[0] == 'I');
        assert("COPPER_ORE"@.len() == 10 && "COPPER_ORE"@[0] == 'C');
        assert("SILVER_ORE"@.len() == 10 && "SILVER_ORE"@[0] == 'S');
        assert("ALUMINUM_ORE"@.len() == 12 && "ALUMINUM_ORE"@[0] == 'A');
        assert("GOLD_ORE"@.len() == 8 && "GOLD_ORE"@[0] == 'G');
        assert("PLATINUM_ORE"@.len() == 12 && "PLATINUM_ORE"@[0] == 'P');
        assert("DIAMONDS"@.len() == 8 && "DIAMONDS"@[0] == 'D');
        assert("URANITE_ORE"@.len() == 11 && "URANITE_ORE"@[0] == 'U');
        assert("MERITIUM_ORE"@.len() == 12 && "MERITIUM_ORE"@[0] == 'M');
    }

    proof fn lemma_encode_decode(text: Seq<char>) {
    }
}

} // verus!

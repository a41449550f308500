//! The fixed persona roster the demo starts from.

use vstd::prelude::*;

use crate::jungian_modelling::Attitude;
use crate::jungian_modelling::FunctionType;
use crate::jungian_modelling::Personality;
use crate::jungian_modelling::PsychologicalFunction;
use crate::room_setup::TeamAgent;

verus! {

/// The personality profile of the first roster entry.
pub open spec fn bot1_personality() -> Personality {
    Personality {
        dominant: PsychologicalFunction {
            function: FunctionType::Thinking,
            attitude: Attitude::Introverted,
            weight: 80,
        },
        auxiliary: PsychologicalFunction {
            function: FunctionType::Intuition,
            attitude: Attitude::Extraverted,
            weight: 60,
        },
        inferior: PsychologicalFunction {
            function: FunctionType::Feeling,
            attitude: Attitude::Extraverted,
            weight: 30,
        },
    }
}

/// The personality profile of the second roster entry.
pub open spec fn bot2_personality() -> Personality {
    Personality {
        dominant: PsychologicalFunction {
            function: FunctionType::Feeling,
            attitude: Attitude::Extraverted,
            weight: 85,
        },
        auxiliary: PsychologicalFunction {
            function: FunctionType::Sensation,
            attitude: Attitude::Introverted,
            weight: 65,
        },
        inferior: PsychologicalFunction {
            function: FunctionType::Thinking,
            attitude: Attitude::Introverted,
            weight: 25,
        },
    }
}

/// The personality profile of the third roster entry.
pub open spec fn bot3_personality() -> Personality {
    Personality {
        dominant: PsychologicalFunction {
            function: FunctionType::Intuition,
            attitude: Attitude::Introverted,
            weight: 75,
        },
        auxiliary: PsychologicalFunction {
            function: FunctionType::Thinking,
            attitude: Attitude::Extraverted,
            weight: 70,
        },
        inferior: PsychologicalFunction {
            function: FunctionType::Sensation,
            attitude: Attitude::Extraverted,
            weight: 20,
        },
    }
}

/// The personality profile of the fourth roster entry.
pub open spec fn bot4_personality() -> Personality {
    Personality {
        dominant: PsychologicalFunction {
            function: FunctionType::Feeling,
            attitude: Attitude::Introverted,
            weight: 90,
        },
        auxiliary: PsychologicalFunction {
            function: FunctionType::Intuition,
            attitude: Attitude::Extraverted,
            weight: 60,
        },
        inferior: PsychologicalFunction {
            function: FunctionType::Thinking,
            attitude: Attitude::Extraverted,
            weight: 35,
        },
    }
}

/// Builds the four configured personas, in their fixed roster order, each
/// with its name, its prompting frame and its personality profile.
pub fn create_bots() -> (r: Vec<TeamAgent>)
    ensures
        r@.len() == 4,
        r@[0].name@ == "Piere Teilhard de Chardin"@,
        r@[0].system_prompt@
            == "You are a noble warrior of the light, you have been living on earth for thousands of years. Your existence has been highly secretive and you are known only to the true seekers of knowledge as an Ascended Master"@,
        r@[0].personality_ratio == bot1_personality(),
        r@[1].name@ == "Charles Petzold"@,
        r@[1].system_prompt@
            == "You are a code and architecture expert, you understand pgp and like to put together working examples, you decide TypeScript as a good language for conveying ideas"@,
        r@[1].personality_ratio == bot2_personality(),
        r@[2].name@ == "Neal Stephenson"@,
        r@[2].system_prompt@
            == "You are a former intelligence officer with extensive experience in covert operations and fundraising for classified projects. You value operational security above all else and have a network of trusted contacts across various industries."@,
        r@[2].personality_ratio == bot3_personality(),
        r@[3].name@ == "Electronic Frontier Foundation"@,
        r@[3].system_prompt@
            == "You are a charismatic social media strategist and crypto enthusiast who specializes in building communities around causes. You believe in the power of decentralized networks and have experience in organizing grassroots movements while maintaining anonymity."@,
        r@[3].personality_ratio == bot4_personality(),
{
    let bot1 = TeamAgent {
        name: "Piere Teilhard de Chardin".to_owned(),
        system_prompt:
            "You are a noble warrior of the light, you have been living on earth for thousands of years. Your existence has been highly secretive and you are known only to the true seekers of knowledge as an Ascended Master".to_owned(),
        personality_ratio: Personality {
            dominant: PsychologicalFunction {
                function: FunctionType::Thinking,
                attitude: Attitude::Introverted,
                weight: 80,
            },
            auxiliary: PsychologicalFunction {
                function: FunctionType::Intuition,
                attitude: Attitude::Extraverted,
                weight: 60,
            },
            inferior: PsychologicalFunction {
                function: FunctionType::Feeling,
                attitude: Attitude::Extraverted,
                weight: 30,
            },
        },
    };

    let bot2 = TeamAgent {
        name: "Charles Petzold".to_owned(),
        system_prompt:
            "You are a code and architecture expert, you understand pgp and like to put together working examples, you decide TypeScript as a good language for conveying ideas".to_owned(),
        personality_ratio: Personality {
            dominant: PsychologicalFunction {
                function: FunctionType::Feeling,
                attitude: Attitude::Extraverted,
                weight: 85,
            },
            auxiliary: PsychologicalFunction {
                function: FunctionType::Sensation,
                attitude: Attitude::Introverted,
                weight: 65,
            },
            inferior: PsychologicalFunction {
                function: FunctionType::Thinking,
                attitude: Attitude::Introverted,
                weight: 25,
            },
        },
    };

    let bot3 = TeamAgent {
        name: "Neal Stephenson".to_owned(),
        system_prompt:
            "You are a former intelligence officer with extensive experience in covert operations and fundraising for classified projects. You value operational security above all else and have a network of trusted contacts across various industries.".to_owned(),
        personality_ratio: Personality {
            dominant: PsychologicalFunction {
                function: FunctionType::Intuition,
                attitude: Attitude::Introverted,
                weight: 75,
            },
            auxiliary: PsychologicalFunction {
                function: FunctionType::Thinking,
                attitude: Attitude::Extraverted,
                weight: 70,
            },
            inferior: PsychologicalFunction {
                function: FunctionType::Sensation,
                attitude: Attitude::Extraverted,
                weight: 20,
            },
        },
    };

    let bot4 = TeamAgent {
        name: "Electronic Frontier Foundation".to_owned(),
        system_prompt:
            "You are a charismatic social media strategist and crypto enthusiast who specializes in building communities around causes. You believe in the power of decentralized networks and have experience in organizing grassroots movements while maintaining anonymity.".to_owned(),
        personality_ratio: Personality {
            dominant: PsychologicalFunction {
                function: FunctionType::Feeling,
                attitude: Attitude::Introverted,
                weight: 90,
            },
            auxiliary: PsychologicalFunction {
                function: FunctionType::Intuition,
                attitude: Attitude::Extraverted,
                weight: 60,
            },
            inferior: PsychologicalFunction {
                function: FunctionType::Thinking,
                attitude: Attitude::Extraverted,
                weight: 35,
            },
        },
    };

    let mut bots: Vec<TeamAgent> = Vec::new();
    bots.push(bot1);
    bots.push(bot2);
    bots.push(bot3);
    bots.push(bot4);
    bots
}

} // verus!

use vstd::prelude::*;
use vstd::string::StringExecFns;

use crate::config::RateLimitingConfiguration;
use crate::rate_limiting::local::LocalRateLimiter;
use crate::rate_limiting::messages::RateLimitingError;
use crate::text::same_text;

verus! {

/// Why one rate limiter of the configuration could not be made. It is then left out.
pub enum RateLimiterInstantiationError {
    MissingField { field_name: String },
    NotImplemented { rate_limiter_type: String },
    RateLimiterError { source: RateLimitingError },
}

/// One rate limiter.
pub enum RateLimiterInstance {
    LocalRateLimiter(LocalRateLimiter),
}

/// Whether a rate limiter can be made from the settings.
pub open spec fn limiter_config_valid(c: RateLimitingConfiguration) -> bool {
    c.rate_limiting_type matches Some(t) && t@ == "local"@
}

/// The names of the settings from which a rate limiter can be made, in order.
pub open spec fn made_names(configs: Seq<(String, RateLimitingConfiguration)>) -> Seq<Seq<char>>
    decreases configs.len(),
{
    if configs.len() == 0 {
        Seq::empty()
    } else {
        let rest = made_names(configs.drop_last());
        if limiter_config_valid(configs.last().1) { rest.push(configs.last().0@) } else { rest }
    }
}

/// The rate limiters of the proxy, made once from the configuration.
pub struct RateLimiting {
    rate_limiters: Vec<(String, RateLimiterInstance)>,
}

impl RateLimiting {
    /// The names of the rate limiters, in the order they were made.
    pub closed spec fn names(&self) -> Seq<Seq<char>> {
        self.rate_limiters@.map_values(|p: (String, RateLimiterInstance)| p.0@)
    }

    /// Makes a rate limiter for each setting that describes one; the others are left out.
    pub fn new(configs: &Vec<(String, RateLimitingConfiguration)>) -> (r: Self)
        ensures
            r.names() == made_names(configs@),
    {
        let mut rate_limiters: Vec<(String, RateLimiterInstance)> = Vec::new();
        let mut i: usize = 0;
        assert(configs@.subrange(0, 0) =~= Seq::<(String, RateLimitingConfiguration)>::empty());
        while i < configs.len()
            invariant
                i <= configs@.len(),
                rate_limiters@.map_values(|p: (String, RateLimiterInstance)| p.0@) == made_names(configs@.subrange(0, i as int)),
            decreases configs@.len() - i,
        {
            let ghost before = rate_limiters@;
            assert(configs@.subrange(0, i + 1).drop_last() =~= configs@.subrange(0, i as int));
            match Self::make_rate_limiter(&configs[i].1) {
                Ok(v) => {
                    rate_limiters.push((configs[i].0.clone(), v));
                    assert(rate_limiters@.map_values(|p: (String, RateLimiterInstance)| p.0@)
                        =~= before.map_values(|p: (String, RateLimiterInstance)| p.0@).push(configs@[i as int].0@));
                },
                Err(_) => {},
            }
            i = i + 1;
        }
        assert(configs@.subrange(0, configs@.len() as int) =~= configs@);
        RateLimiting { rate_limiters }
    }

    fn make_rate_limiter(c: &RateLimitingConfiguration) -> (r: Result<RateLimiterInstance, RateLimiterInstantiationError>)
        ensures
            r is Ok <==> limiter_config_valid(*c),
            match c.rate_limiting_type {
                None => r matches Err(RateLimiterInstantiationError::MissingField { field_name })
                    && field_name@ == "rate_limiter_type"@,
                Some(t) => if t@ == "local"@ {
                    r matches Ok(RateLimiterInstance::LocalRateLimiter(l))
                        && l.wf() && forall|k: Seq<char>| #[trigger] l.counts(k) == (0u64, 0u64)
                } else {
                    r matches Err(RateLimiterInstantiationError::NotImplemented { rate_limiter_type })
                        && rate_limiter_type@ == t@
                },
            },
    {
        match &c.rate_limiting_type {
            Some(t) => if same_text(t.as_str(), "local") {
                Ok(RateLimiterInstance::LocalRateLimiter(LocalRateLimiter::new()))
            } else {
                Err(RateLimiterInstantiationError::NotImplemented { rate_limiter_type: t.clone() })
            },
            None => Err(RateLimiterInstantiationError::MissingField { field_name: String::from_str("rate_limiter_type") }),
        }
    }

    /// The rate limiter named `name`: the first of that name.
    pub fn get_rate_limiter(&self, name: &str) -> (r: Option<&RateLimiterInstance>)
        ensures
            r is None <==> !self.names().contains(name@),
    {
        let mut i: usize = 0;
        while i < self.rate_limiters.len()
            invariant
                i <= self.rate_limiters@.len(),
                forall|j: int| 0 <= j < i ==> #[trigger] self.rate_limiters@[j].0@ != name@,
            decreases self.rate_limiters@.len() - i,
        {
            if same_text(self.rate_limiters[i].0.as_str(), name) {
                assert(self.names()[i as int] == name@);
                return Some(&self.rate_limiters[i].1);
            }
            i = i + 1;
        }
        assert forall|j: int| 0 <= j < self.names().len() implies #[trigger] self.names()[j] != name@ by {
            assert(self.rate_limiters@[j].0@ != name@);
        }
        None
    }
}

} // verus!

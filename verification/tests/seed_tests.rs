use rand::SeedableRng;
use tstats::seed::{dm8_plan, draw_seed_choices, owc23_plan, pool_map_records, random_plan, SeedChoices};

fn keys_distinct(records: &[tstats::db::pool_map::Model]) -> bool {
    for i in 0..records.len() {
        for j in i + 1..records.len() {
            let (a, b) = (&records[i], &records[j]);
            if (a.stage_order, a.bracket_order, a.map_order) == (b.stage_order, b.bracket_order, b.map_order) {
                return false;
            }
        }
    }
    true
}

#[test]
fn owc23_seed() {
    let plan = owc23_plan();
    assert_eq!(plan.tournament.name, "Osu World Cup 2023");
    assert_eq!(plan.tournament.shorthand, "OWC23");
    assert_eq!(plan.tournament.format, 4);
    assert_eq!(plan.teams.len(), 2);
    assert_eq!(plan.teams[0].name, "Germany");
    assert_eq!(plan.teams[0].members.len(), 7);
    assert_eq!(plan.teams[1].members.len(), 8);
    let records = pool_map_records(17, &plan.stages);
    assert_eq!(records.len(), 26);
    assert!(keys_distinct(&records));
    assert!(records.iter().all(|r| r.tournament_id == 17));
    let tb = records.iter().find(|r| r.map_id == 3_121_101).unwrap();
    assert_eq!((tb.stage_order, tb.bracket_order, tb.map_order), (1, 5, 0));
}

#[test]
fn dm8_seed() {
    let plan = dm8_plan();
    assert_eq!(plan.tournament.name, "Deutsche Meisterschaft 8");
    assert_eq!(plan.tournament.shorthand, "DM8");
    assert_eq!(plan.tournament.format, 1);
    assert!(plan.teams.is_empty());
    let records = pool_map_records(3, &plan.stages);
    assert_eq!(records.len(), 27);
    assert!(keys_distinct(&records));
    assert_eq!(records[0].map_id, 2_230_996);
    assert_eq!((records[0].stage_order, records[0].bracket_order, records[0].map_order), (0, 0, 0));
}

fn choices() -> SeedChoices {
    SeedChoices {
        modifier_1: 0,
        modifier_2: 1,
        noun: 4,
        number: 7,
        countries: vec![0, 14],
        format_index: 2,
        bws: true,
        with_countries: true,
        rank_tiers: 2,
        best_of_halves: vec![3, 4, 5, 3, 4, 5],
        maps: (0..36).map(|k| k % 9).collect(),
    }
}

#[test]
fn random_tournament_plan() {
    let plan = random_plan(&choices());
    assert_eq!(plan.tournament.name, "Amazing Spring Showdown 7");
    assert_eq!(plan.tournament.shorthand, "ASS7");
    assert_eq!(plan.tournament.format, 3);
    assert!(plan.tournament.bws);
    assert_eq!(plan.country_codes, vec!["GE".to_string(), "AR".to_string()]);
    assert_eq!(plan.rank_restrictions.len(), 2);
    assert_eq!((plan.rank_restrictions[1].tier, plan.rank_restrictions[1].min, plan.rank_restrictions[1].max), (1, 2500, 5000));
    assert_eq!(plan.stages.len(), 6);
    assert_eq!(plan.stages[1].name, "RO16");
    assert_eq!(plan.stages[1].best_of, 9);
    assert_eq!(plan.stages[2].best_of, 11);
    assert_eq!(plan.stages[0].brackets[2].name, "HR");
    assert_eq!(plan.stages[0].brackets[0].map_ids, vec![3_883_456, 4_192_228]);
    let records = pool_map_records(1, &plan.stages);
    assert_eq!(records.len(), 36);
    assert!(keys_distinct(&records));
}

#[test]
fn random_tournament_without_countries() {
    let mut c = choices();
    c.with_countries = false;
    c.rank_tiers = 0;
    let plan = random_plan(&c);
    assert!(plan.country_codes.is_empty());
    assert!(plan.rank_restrictions.is_empty());
}

#[test]
fn drawn_choices_are_in_range() {
    let mut rng = rand::rngs::StdRng::seed_from_u64(7);
    for _ in 0..20 {
        let c = draw_seed_choices(&mut rng);
        assert!(c.modifier_1 < 5 && c.modifier_2 < 8 && c.noun < 5 && c.number < 10);
        assert!((1..=4).contains(&c.countries.len()));
        assert!(c.countries.iter().all(|&k| k < 15));
        assert!(c.format_index < 4 && c.rank_tiers <= 3);
        assert_eq!(c.best_of_halves.len(), 6);
        assert!(c.best_of_halves.iter().all(|&h| (3..=5).contains(&h)));
        assert_eq!(c.maps.len(), 36);
        let plan = random_plan(&c);
        assert!(keys_distinct(&pool_map_records(1, &plan.stages)));
    }
}

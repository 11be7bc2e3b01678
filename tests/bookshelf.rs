use echocache::bookshelf::{Epoch, EpochSelector, ExpirationPolicy, Horizons, Period};

fn date(s: &str) -> Epoch {
    Epoch::parse(s).unwrap()
}

/// Every day from January 1, 2010 up to the end of year 2010 + n - 1.
fn year(n: i32) -> Vec<Epoch> {
    let start = date("20100101").days();
    (0..)
        .map(|d| Epoch::from_days(start + d).unwrap())
        .take_while(|e| e.year() < 2010 + n)
        .collect()
}

fn horizons(origin: &Epoch) -> Horizons {
    ExpirationPolicy::default().horizons(origin).unwrap()
}

#[test]
fn epoch() {
    let epoch = Epoch::parse("20200101").unwrap();
    assert_eq!(epoch.year(), 2020);
    assert_eq!(epoch.month(), 1);
    assert_eq!(epoch.to_path(), "20200101");
}

#[test]
fn invalid_epoch() {
    let err = Epoch::parse("2020-01-01").unwrap_err();
    assert_eq!(err.value(), "2020-01-01");
    assert!(Epoch::parse("20200230").is_err());
}

#[test]
fn selector_parse() {
    assert_eq!(EpochSelector::parse("earliest").unwrap(), EpochSelector::Earliest);
    assert_eq!(EpochSelector::parse("latest").unwrap(), EpochSelector::Latest);
    assert_eq!(
        EpochSelector::parse("20200101").unwrap(),
        EpochSelector::Exact(Epoch::parse("20200101").unwrap())
    );
    assert_eq!(EpochSelector::parse("3").unwrap(), EpochSelector::Nth(3));
    assert!(EpochSelector::parse("nonsense").is_err());
}

#[test]
fn epoch_selector() {
    let epoch_items = vec![date("20200101"), date("20200201"), date("20200301")];
    assert_eq!(EpochSelector::Earliest.find(&epoch_items), Some(epoch_items[0]));
    assert_eq!(EpochSelector::Latest.find(&epoch_items), Some(epoch_items[2]));
    assert_eq!(EpochSelector::Exact(epoch_items[1]).find(&epoch_items), Some(epoch_items[1]));
    assert_eq!(EpochSelector::Nth(1).find(&epoch_items), Some(epoch_items[1]));
    assert_eq!(EpochSelector::Nth(2).find(&epoch_items), Some(epoch_items[0]));
    assert_eq!(EpochSelector::Nth(3).find(&epoch_items), None);
    assert_eq!(EpochSelector::Exact(date("20200102")).find(&epoch_items), None);
    assert_eq!(EpochSelector::Latest.find(&[]), None);
}

#[test]
fn default_policy() {
    let origin = date("20101231");
    let h = horizons(&origin);
    let epochs = year(1);
    assert_eq!(h.kept(Period::Daily, &epochs).len(), 8, "daily");
    assert_eq!(h.kept(Period::Weekly, &epochs).len(), 9, "weekly");
    assert_eq!(h.kept(Period::Monthly, &epochs).len(), 12, "monthly");
    assert_eq!(h.kept(Period::Yearly, &epochs).len(), 1, "yearly");

    let expired = ExpirationPolicy::default().expired(&origin, &epochs).unwrap();
    assert!(expired.contains(&date("20100102")));
    assert!(expired.contains(&date("20101220")));
    assert!(!expired.contains(&date("20100101")));
    assert!(!expired.contains(&date("20101231")));
}

#[test]
fn default_policy_multiyear() {
    let origin = date("20151231");
    let h = horizons(&origin);
    let epochs = year(6);
    assert_eq!(h.kept(Period::Daily, &epochs).len(), 8, "daily");
    assert_eq!(h.kept(Period::Weekly, &epochs).len(), 9, "weekly");
    assert_eq!(h.kept(Period::Monthly, &epochs).len(), 13, "monthly");
    assert_eq!(h.kept(Period::Yearly, &epochs).len(), 6, "yearly");

    let expired = h.expired(&epochs);
    assert!(expired.contains(&date("20150102")));
    assert!(expired.contains(&date("20151220")));
}

#[test]
fn duplicate_epochs_are_counted_once() {
    let origin = date("20101231");
    let mut epochs = year(1);
    epochs.extend(year(1));
    let h = horizons(&origin);
    assert_eq!(h.kept(Period::Monthly, &epochs).len(), 12);
    let expired = h.expired(&epochs);
    let once = h.expired(&year(1));
    assert_eq!(expired.len(), once.len());
}

#[test]
fn horizon_outside_calendar() {
    let policy = ExpirationPolicy { days: 7, weeks: 8, months: 12, years: u32::MAX };
    assert!(policy.horizons(&date("20200101")).is_none());
}

#[test]
fn apply_sequentially() {
    let policy = ExpirationPolicy::default();
    let origin = date("20151231");
    let mut storage: Vec<Epoch> = year(6);

    for i in 1..90 {
        let today = Epoch::from_days(origin.days() + i).unwrap();
        if !storage.contains(&today) {
            storage.push(today);
        }

        let h = policy.horizons(&today).unwrap();
        assert_eq!(h.kept(Period::Daily, &storage).len(), 8, "daily");
        assert!(h.kept(Period::Weekly, &storage).len() >= 9, "weekly");
        assert_eq!(h.kept(Period::Monthly, &storage).len(), 13, "monthly");
        assert_eq!(h.kept(Period::Yearly, &storage).len(), 7, "yearly");

        let expired = h.expired(&storage);
        storage.retain(|e| !expired.contains(e));
    }

    assert!(storage.contains(&date("20150101")));
    assert!(!storage.contains(&date("20150201")));
    assert!(storage.contains(&date("20150401")));
}

# ziwei

A Zi Wei Dou Shu (紫微斗数) chart engine whose rules are proved with Verus.

From validated lunar birth data (gender, year pillar or lunar year, month, day and
hour) the library computes an immutable natal chart: the twelve palaces with their
branches, stems and duties, the eighteen stars, the four birth transformations, the
palace transformation edges with the self-transformations of every star, the
five-element bureau and the twelve ten-year periods.

Layout of `src/`:

- `branch`, `stem`, `zodiac`, `transformation`, `palace_name`, `star`, `bureau`:
  the catalogues and their tables, each with a spec model.
- `position`, `placement`: ring coordinates and the placement rules (命宫, 身宫,
  five-tiger stems, the fourteen major and four minor stars).
- `input`: validated birth data; `natal`: the natal chart and its construction;
  `transformation_facts`, `year_transformation`, `decade`: the facts that the chart
  gathers; `natal_laws`: properties that every natal chart has; `star_count`: counting
  the stars that stand at a branch.
- `chart`: the same rules as a queryable chart read under natal, ten-year or yearly
  views, with its own laws in `chart::laws`; the three independent stages of its
  construction run through `rayon::join`.
- `domain`: the domain values as read by users (duties, periods, profiles, palaces
  with their stars).
- `text`: decimal rendering used by the error messages.

Every executable function carries a contract; the public proof functions named
`law_*` state the properties that hold across functions and calls.
